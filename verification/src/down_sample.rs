//! The down-sampling query: rows of a status table grouped into time buckets,
//! with the averages of each bucket and the battery state of its last row.

use vstd::prelude::*;

use crate::clock::{parse_utc_timestamp, utc_now_timestamp, utc_representable, utc_text_timestamp};
use crate::decimal::{append_decimal, decimal_text};
use crate::text::{has_infix, occurs_at, owned_text};

verus! {

/// What a down-sampling query reads and how it buckets it.
#[derive(Debug)]
pub struct DownSampleParams {
    /// The strftime pattern that names a bucket.
    pub time_formater: String,
    /// The table that is read.
    pub table_name: String,
    /// The column of Unix timestamps.
    pub time_field: String,
    /// The column that orders rows sharing a timestamp, the greatest one winning.
    pub order_field: String,
    /// The last timestamp read (inclusive).
    pub end_time: i64,
    /// The timestamp after which rows are read (exclusive).
    pub start_time: i64,
    /// The width of a bucket, in seconds.
    pub interval_secs: i64,
}

impl Default for DownSampleParams {
    /// The last ten seconds of the in-memory status table, in one-second
    /// buckets named by their ISO 8601 time.
    fn default() -> (p: Self)
        ensures
            p.time_formater@ == "%Y-%m-%dT%H:%M:%SZ"@,
            p.table_name@ == "memory_battery_status"@,
            p.time_field@ == "timestamp"@,
            p.order_field@ == "id"@,
            utc_representable(p.end_time as int),
            p.start_time == p.end_time - 10,
            p.interval_secs == 1,
    {
        let end_time = utc_now_timestamp();
        DownSampleParams {
            time_formater: owned_text("%Y-%m-%dT%H:%M:%SZ"),
            table_name: owned_text("memory_battery_status"),
            time_field: owned_text("timestamp"),
            order_field: owned_text("id"),
            end_time,
            start_time: end_time - 10,
            interval_secs: 1,
        }
    }
}

/// `p` reads `table_name` with the given names, bounds and bucket width.
pub open spec fn params_describe(
    p: DownSampleParams,
    formater: Seq<char>,
    table_name: Seq<char>,
    time_field: Seq<char>,
    order_field: Seq<char>,
    end_time: int,
    start_time: int,
    interval_secs: int,
) -> bool {
    &&& p.time_formater@ == formater
    &&& p.table_name@ == table_name
    &&& p.time_field@ == time_field
    &&& p.order_field@ == order_field
    &&& p.end_time == end_time
    &&& p.start_time == start_time
    &&& p.interval_secs == interval_secs
}

/// The SQL text of a down-sampling query over the given names and bounds.
pub open spec fn down_sample_sql(
    formater: Seq<char>,
    table_name: Seq<char>,
    time_field: Seq<char>,
    order_field: Seq<char>,
    end_time: int,
    start_time: int,
    interval_secs: int,
) -> Seq<char> {
        "\nWITH GroupData AS (\nSELECT\nstrftime('"@
        + formater
        + "', "@
        + time_field
        + "/"@
        + decimal_text(interval_secs)
        + "*"@
        + decimal_text(interval_secs)
        + " , 'unixepoch') AS time_group,\nAVG(percentage) AS percentage,\nAVG(energy_rate) AS energy_rate,\nAVG(voltage) AS voltage,\nAVG(cpu_load) AS cpu_load,\nMAX("@
        + time_field
        + ") AS last_timestamp\nFROM\n"@
        + table_name
        + "\nWHERE "@
        + time_field
        + ">"@
        + decimal_text(start_time)
        + " and "@
        + time_field
        + "<="@
        + decimal_text(end_time)
        + "\nGROUP BY\ntime_group\n),\nUniqueBatteryStatus AS (\nSELECT\n    "@
        + time_field
        + ",\n    state,\n    ROW_NUMBER() OVER (PARTITION BY "@
        + time_field
        + " ORDER BY "@
        + order_field
        + " DESC) AS rn -- Ordering field used to sort data within groups\nFROM\n    "@
        + table_name
        + "\nWHERE "@
        + time_field
        + ">"@
        + decimal_text(start_time)
        + " and "@
        + time_field
        + "<="@
        + decimal_text(end_time)
        + "\n)\nSELECT\ng.time_group,\ng.percentage,\ng.energy_rate,\ng.voltage,\ng.cpu_load,\nb.state\nFROM\nGroupData g\nJOIN UniqueBatteryStatus b ON\ng.last_timestamp = b."@
        + time_field
        + "\nAND b.rn = 1\nORDER BY\ng.time_group;\n    "@
}

/// The SQL text of the down-sampling query that `params` describes.
pub fn build_down_sample_sql(params: &DownSampleParams) -> (sql: String)
    ensures
        sql@ == down_sample_sql(
            params.time_formater@,
            params.table_name@,
            params.time_field@,
            params.order_field@,
            params.end_time as int,
            params.start_time as int,
            params.interval_secs as int,
        ),
        ({
            let bucket = "\nWITH GroupData AS (\nSELECT\nstrftime('"@ + params.time_formater@ + "', "@
                + params.time_field@ + "/"@ + decimal_text(params.interval_secs as int) + "*"@
                + decimal_text(params.interval_secs as int);
            bucket.len() <= sql@.len() && sql@.subrange(0, bucket.len() as int) == bucket
        }),
        has_infix(
            sql@,
            "\nWHERE "@ + params.time_field@ + ">"@ + decimal_text(params.start_time as int) + " and "@
                + params.time_field@ + "<="@ + decimal_text(params.end_time as int),
        ),
{
    proof {
        lemma_down_sample_sql_buckets_and_bounds(
            params.time_formater@,
            params.table_name@,
            params.time_field@,
            params.order_field@,
            params.end_time as int,
            params.start_time as int,
            params.interval_secs as int,
        );
    }
    let mut s = String::new();
    s.append("\nWITH GroupData AS (\nSELECT\nstrftime('");
    s.append(params.time_formater.as_str());
    s.append("', ");
    s.append(params.time_field.as_str());
    s.append("/");
    append_decimal(&mut s, params.interval_secs);
    s.append("*");
    append_decimal(&mut s, params.interval_secs);
    s.append(" , 'unixepoch') AS time_group,\nAVG(percentage) AS percentage,\nAVG(energy_rate) AS energy_rate,\nAVG(voltage) AS voltage,\nAVG(cpu_load) AS cpu_load,\nMAX(");
    s.append(params.time_field.as_str());
    s.append(") AS last_timestamp\nFROM\n");
    s.append(params.table_name.as_str());
    s.append("\nWHERE ");
    s.append(params.time_field.as_str());
    s.append(">");
    append_decimal(&mut s, params.start_time);
    s.append(" and ");
    s.append(params.time_field.as_str());
    s.append("<=");
    append_decimal(&mut s, params.end_time);
    s.append("\nGROUP BY\ntime_group\n),\nUniqueBatteryStatus AS (\nSELECT\n    ");
    s.append(params.time_field.as_str());
    s.append(",\n    state,\n    ROW_NUMBER() OVER (PARTITION BY ");
    s.append(params.time_field.as_str());
    s.append(" ORDER BY ");
    s.append(params.order_field.as_str());
    s.append(" DESC) AS rn -- Ordering field used to sort data within groups\nFROM\n    ");
    s.append(params.table_name.as_str());
    s.append("\nWHERE ");
    s.append(params.time_field.as_str());
    s.append(">");
    append_decimal(&mut s, params.start_time);
    s.append(" and ");
    s.append(params.time_field.as_str());
    s.append("<=");
    append_decimal(&mut s, params.end_time);
    s.append("\n)\nSELECT\ng.time_group,\ng.percentage,\ng.energy_rate,\ng.voltage,\ng.cpu_load,\nb.state\nFROM\nGroupData g\nJOIN UniqueBatteryStatus b ON\ng.last_timestamp = b.");
    s.append(params.time_field.as_str());
    s.append("\nAND b.rn = 1\nORDER BY\ng.time_group;\n    ");
    s
}

/// The query opens with the bucket of each row: its timestamp divided by the
/// bucket width and multiplied back, written with the bucket pattern; and it
/// reads the rows after `start_time` up to `end_time` inclusive. This holds
/// for every bucket width and every pair of bounds.
pub proof fn lemma_down_sample_sql_buckets_and_bounds(
    formater: Seq<char>,
    table_name: Seq<char>,
    time_field: Seq<char>,
    order_field: Seq<char>,
    end_time: int,
    start_time: int,
    interval_secs: int,
)
    ensures
        ({
            let sql = down_sample_sql(
                formater,
                table_name,
                time_field,
                order_field,
                end_time,
                start_time,
                interval_secs,
            );
            let bucket = "\nWITH GroupData AS (\nSELECT\nstrftime('"@ + formater + "', "@ + time_field
                + "/"@ + decimal_text(interval_secs) + "*"@ + decimal_text(interval_secs);
            bucket.len() <= sql.len() && sql.subrange(0, bucket.len() as int) == bucket
        }),
        has_infix(
            down_sample_sql(
                formater,
                table_name,
                time_field,
                order_field,
                end_time,
                start_time,
                interval_secs,
            ),
            "\nWHERE "@ + time_field + ">"@ + decimal_text(start_time) + " and "@ + time_field + "<="@
                + decimal_text(end_time),
        ),
{
    let sql = down_sample_sql(
        formater,
        table_name,
        time_field,
        order_field,
        end_time,
        start_time,
        interval_secs,
    );
    let bucket = "\nWITH GroupData AS (\nSELECT\nstrftime('"@ + formater + "', "@ + time_field + "/"@
        + decimal_text(interval_secs) + "*"@ + decimal_text(interval_secs);
    assert(sql.subrange(0, bucket.len() as int) =~= bucket);
    let head = bucket
        + " , 'unixepoch') AS time_group,\nAVG(percentage) AS percentage,\nAVG(energy_rate) AS energy_rate,\nAVG(voltage) AS voltage,\nAVG(cpu_load) AS cpu_load,\nMAX("@
        + time_field + ") AS last_timestamp\nFROM\n"@ + table_name;
    let bounds = "\nWHERE "@ + time_field + ">"@ + decimal_text(start_time) + " and "@ + time_field + "<="@
        + decimal_text(end_time);
    let i = head.len() as int;
    assert(sql.subrange(i, i + bounds.len()) =~= bounds);
    assert(occurs_at(sql, bounds, i));
}

/// The timestamps that chrono reads from the bucket names of down-sampled rows,
/// in order; `None` when one of the names is no UTC date and time.
pub fn time_group_timestamps(groups: &Vec<String>) -> (r: Option<Vec<i64>>)
    ensures
        r is Some <==> forall|i: int|
            0 <= i < groups@.len() ==> (#[trigger] utc_text_timestamp(groups@[i]@)) is Some,
        r matches Some(v) ==> v@.len() == groups@.len() && forall|i: int|
            0 <= i < groups@.len() ==> utc_text_timestamp(groups@[i]@) == Some(#[trigger] v@[i]),
{
    let mut out: Vec<i64> = Vec::new();
    let n = groups.len();
    let mut i: usize = 0;
    while i < n
        invariant
            n == groups@.len(),
            i <= n,
            out@.len() == i,
            forall|k: int| 0 <= k < i ==> utc_text_timestamp(groups@[k]@) == Some(#[trigger] out@[k]),
        decreases n - i,
    {
        match parse_utc_timestamp(groups[i].as_str()) {
            Some(t) => {
                out.push(t);
            },
            None => {
                assert(utc_text_timestamp(groups@[i as int]@) is None);
                return None;
            },
        }
        i = i + 1;
    }
    assert forall|k: int| 0 <= k < groups@.len() implies (#[trigger] utc_text_timestamp(groups@[k]@)) is Some by {
        assert(utc_text_timestamp(groups@[k]@) == Some(out@[k]));
    }
    Some(out)
}

} // verus!
