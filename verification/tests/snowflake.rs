use discord_async::Snowflake;

#[test]
fn snowflake_components() {
    let s = Snowflake::new(175_928_847_299_117_063);
    // 2016-04-30T11:18:25.796Z in milliseconds since the Unix epoch.
    assert_eq!(s.timestamp_ms(), 1_462_015_105_796);
    assert_eq!(s.worker(), 1);
    assert_eq!(s.process(), 0);
    assert_eq!(s.increment(), 7);
}

#[test]
fn snowflake_round_trip() {
    let s = Snowflake::new(191_300_962_226_790_300);
    assert_eq!(s.to_u64(), 191_300_962_226_790_300);
}
