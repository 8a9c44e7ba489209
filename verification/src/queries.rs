//! The swaps aggregation query text, for callers whose storage engine
//! runs the roll-up itself: one statement, with the partition clause of
//! the requested granularity spliced in at each grouping site.

use vstd::prelude::*;
use vstd::string::StringExecFns;

verus! {

/// The swaps query with `c` as the partition clause.
pub open spec fn swap_query_text(c: Seq<char>) -> Seq<char> {
    "WITH RankedRecords AS (\n    SELECT\n        *,\n        "@ + c
        + " AS record_date,\n        ROW_NUMBER() OVER (PARTITION BY "@ + c
        + " ORDER BY start_time) AS rn_first,\n        ROW_NUMBER() OVER (PARTITION BY "@ + c
        + " ORDER BY start_time DESC) AS rn_last,\n        sum(synth_mint_fees) OVER (PARTITION BY "@
        + c + " ORDER BY start_time DESC) AS synth_mint_fees_sum,\n        sum(synth_mint_volume) OVER (PARTITION BY "@
        + c + " ORDER BY start_time DESC) AS synth_mint_volume_sum,\n        sum(synth_redeem_volume_usd) OVER (PARTITION BY "@
        + c + " ORDER BY start_time DESC) AS synth_redeem_volume_usd_sum,\n        avg(synth_redeem_average_slip) OVER (PARTITION BY "@
        + c + " ORDER BY start_time DESC) AS synth_redeem_average_slip_avg,\n        sum(synth_redeem_count) OVER (PARTITION BY "@
        + c + " ORDER BY start_time DESC) AS synth_redeem_count_sum,\n        sum(synth_redeem_fees) OVER (PARTITION BY "@
        + c + " ORDER BY start_time DESC) AS synth_redeem_fees_sum,\n        sum(synth_redeem_volume) OVER (PARTITION BY "@
        + c + " ORDER BY start_time DESC) AS synth_redeem_volume_sum\n    FROM Swaps\n    WHERE start_time IS NOT NULL\n    AND start_time >= FROM_UNIXTIME(?)\n    AND start_time <= FROM_UNIXTIME(?)\n)\nSELECT\n    CAST(record_date AS CHAR) AS record_date,\n    MAX(CASE WHEN rn_last = 1 THEN synth_mint_fees_sum END) AS synth_mint_fees_sum,\n    MAX(CASE WHEN rn_last = 1 THEN synth_mint_volume_sum END) AS synth_mint_volume_sum,\n    MAX(CASE WHEN rn_last = 1 THEN synth_redeem_volume_usd_sum END) AS synth_redeem_volume_usd_sum,\n    MAX(CASE WHEN rn_last = 1 THEN synth_redeem_average_slip_avg END) AS synth_redeem_average_slip_avg,\n    MAX(CASE WHEN rn_last = 1 THEN synth_redeem_count_sum END) AS synth_redeem_count_sum,\n    MAX(CASE WHEN rn_last = 1 THEN synth_redeem_fees_sum END) AS synth_redeem_fees_sum,\n    MAX(CASE WHEN rn_last = 1 THEN synth_redeem_volume_sum END) AS synth_redeem_volume_sum,\n    MAX(CASE WHEN rn_first = 1 THEN start_time END) AS first_start_time,\n    MAX(CASE WHEN rn_last = 1 THEN end_time END) AS last_end_time\nFROM RankedRecords\nGROUP BY record_date\nORDER BY record_date\nLIMIT ?;\n"@
}

/// Builds the swaps aggregation statement around the partition clause.
pub fn getswapquery(partition_by_clause: &str) -> (q: String)
    ensures
        q@ == swap_query_text(partition_by_clause@),
{
    let mut q = String::new();
    q.append("WITH RankedRecords AS (\n    SELECT\n        *,\n        ");
    q.append(partition_by_clause);
    q.append(" AS record_date,\n        ROW_NUMBER() OVER (PARTITION BY ");
    q.append(partition_by_clause);
    q.append(" ORDER BY start_time) AS rn_first,\n        ROW_NUMBER() OVER (PARTITION BY ");
    q.append(partition_by_clause);
    q.append(
        " ORDER BY start_time DESC) AS rn_last,\n        sum(synth_mint_fees) OVER (PARTITION BY ",
    );
    q.append(partition_by_clause);
    q.append(
        " ORDER BY start_time DESC) AS synth_mint_fees_sum,\n        sum(synth_mint_volume) OVER (PARTITION BY ",
    );
    q.append(partition_by_clause);
    q.append(
        " ORDER BY start_time DESC) AS synth_mint_volume_sum,\n        sum(synth_redeem_volume_usd) OVER (PARTITION BY ",
    );
    q.append(partition_by_clause);
    q.append(
        " ORDER BY start_time DESC) AS synth_redeem_volume_usd_sum,\n        avg(synth_redeem_average_slip) OVER (PARTITION BY ",
    );
    q.append(partition_by_clause);
    q.append(
        " ORDER BY start_time DESC) AS synth_redeem_average_slip_avg,\n        sum(synth_redeem_count) OVER (PARTITION BY ",
    );
    q.append(partition_by_clause);
    q.append(
        " ORDER BY start_time DESC) AS synth_redeem_count_sum,\n        sum(synth_redeem_fees) OVER (PARTITION BY ",
    );
    q.append(partition_by_clause);
    q.append(
        " ORDER BY start_time DESC) AS synth_redeem_fees_sum,\n        sum(synth_redeem_volume) OVER (PARTITION BY ",
    );
    q.append(partition_by_clause);
    q.append(
        " ORDER BY start_time DESC) AS synth_redeem_volume_sum\n    FROM Swaps\n    WHERE start_time IS NOT NULL\n    AND start_time >= FROM_UNIXTIME(?)\n    AND start_time <= FROM_UNIXTIME(?)\n)\nSELECT\n    CAST(record_date AS CHAR) AS record_date,\n    MAX(CASE WHEN rn_last = 1 THEN synth_mint_fees_sum END) AS synth_mint_fees_sum,\n    MAX(CASE WHEN rn_last = 1 THEN synth_mint_volume_sum END) AS synth_mint_volume_sum,\n    MAX(CASE WHEN rn_last = 1 THEN synth_redeem_volume_usd_sum END) AS synth_redeem_volume_usd_sum,\n    MAX(CASE WHEN rn_last = 1 THEN synth_redeem_average_slip_avg END) AS synth_redeem_average_slip_avg,\n    MAX(CASE WHEN rn_last = 1 THEN synth_redeem_count_sum END) AS synth_redeem_count_sum,\n    MAX(CASE WHEN rn_last = 1 THEN synth_redeem_fees_sum END) AS synth_redeem_fees_sum,\n    MAX(CASE WHEN rn_last = 1 THEN synth_redeem_volume_sum END) AS synth_redeem_volume_sum,\n    MAX(CASE WHEN rn_first = 1 THEN start_time END) AS first_start_time,\n    MAX(CASE WHEN rn_last = 1 THEN end_time END) AS last_end_time\nFROM RankedRecords\nGROUP BY record_date\nORDER BY record_date\nLIMIT ?;\n",
    );
    proof {
        assert(q@ =~= swap_query_text(partition_by_clause@));
    }
    q
}

} // verus!
