use waymon::collectors::pressure::MemoryPressure;

#[test]
fn pressure_test_parse() -> Result<(), String> {
    let s = MemoryPressure::parse(TEST_DATA).map_err(|e| format!("{:?}", e))?;

    assert_eq!(s.some, 2062279);
    assert_eq!(s.full, 1895827);

    Ok(())
}

const TEST_DATA: &str = r#"
some avg10=0.00 avg60=0.08 avg300=0.42 total=2062279
full avg10=0.00 avg60=0.00 avg300=0.00 total=1895827
"#;
