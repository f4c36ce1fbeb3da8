use battery_master::down_sample::{build_down_sample_sql, time_group_timestamps, DownSampleParams};

fn reference_sql(p: &DownSampleParams) -> String {
    let formater = &p.time_formater;
    let table_name = &p.table_name;
    let time_field = &p.time_field;
    let order_field = &p.order_field;
    let end_time = p.end_time;
    let start_time = p.start_time;
    let interval_secs = p.interval_secs;
    format!(
        r"
WITH GroupData AS (
SELECT
strftime('{formater}', {time_field}/{interval_secs}*{interval_secs} , 'unixepoch') AS time_group,
AVG(percentage) AS percentage,
AVG(energy_rate) AS energy_rate,
AVG(voltage) AS voltage,
AVG(cpu_load) AS cpu_load,
MAX({time_field}) AS last_timestamp
FROM
{table_name}
WHERE {time_field}>{start_time} and {time_field}<={end_time}
GROUP BY
time_group
),
UniqueBatteryStatus AS (
SELECT
    {time_field},
    state,
    ROW_NUMBER() OVER (PARTITION BY {time_field} ORDER BY {order_field} DESC) AS rn -- Ordering field used to sort data within groups
FROM
    {table_name}
WHERE {time_field}>{start_time} and {time_field}<={end_time}
)
SELECT
g.time_group,
g.percentage,
g.energy_rate,
g.voltage,
g.cpu_load,
b.state
FROM
GroupData g
JOIN UniqueBatteryStatus b ON
g.last_timestamp = b.{time_field}
AND b.rn = 1
ORDER BY
g.time_group;
    "
    )
}

#[test]
fn default_params() {
    let before = chrono::Utc::now().timestamp();
    let p = DownSampleParams::default();
    let after = chrono::Utc::now().timestamp();
    assert_eq!(p.time_formater, "%Y-%m-%dT%H:%M:%SZ");
    assert_eq!(p.table_name, "memory_battery_status");
    assert_eq!(p.time_field, "timestamp");
    assert_eq!(p.order_field, "id");
    assert!(before <= p.end_time && p.end_time <= after);
    assert_eq!(p.start_time, p.end_time - 10);
    assert_eq!(p.interval_secs, 1);
}

#[test]
fn sql_of_default_params() {
    let p = DownSampleParams {
        end_time: 1_700_000_010,
        start_time: 1_700_000_000,
        ..DownSampleParams::default()
    };
    let sql = build_down_sample_sql(&p);
    assert_eq!(sql, reference_sql(&p));
    assert!(sql.contains("strftime('%Y-%m-%dT%H:%M:%SZ', timestamp/1*1 , 'unixepoch') AS time_group"));
    assert!(sql.contains("WHERE timestamp>1700000000 and timestamp<=1700000010"));
    assert!(sql.contains("ORDER BY id DESC"));
}

#[test]
fn sql_of_one_minute_params() {
    let p = DownSampleParams {
        time_formater: "%Y-%m-%dT%H:%M:00Z".to_string(),
        table_name: "battery_realtime".to_string(),
        time_field: "timestamp".to_string(),
        order_field: "timestamp".to_string(),
        end_time: -5,
        start_time: -120,
        interval_secs: 60,
    };
    let sql = build_down_sample_sql(&p);
    assert_eq!(sql, reference_sql(&p));
    assert!(sql.contains("FROM\nbattery_realtime\nWHERE timestamp>-120 and timestamp<=-5"));
}

#[test]
fn bucket_names_to_timestamps() {
    let groups = vec!["2024-01-01T00:00:00Z".to_string(), "2024-01-01T00:01:00Z".to_string()];
    assert_eq!(time_group_timestamps(&groups), Some(vec![1_704_067_200, 1_704_067_260]));
    assert_eq!(time_group_timestamps(&vec![]), Some(vec![]));
    let bad = vec!["2024-01-01T00:00:00Z".to_string(), "not a time".to_string()];
    assert_eq!(time_group_timestamps(&bad), None);
}
