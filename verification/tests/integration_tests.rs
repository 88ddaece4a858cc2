use datapass::parse_data_usage;
use datapass::types::GbQuantity;
use datapass::DataUsage;
use datapass::DatapassError;

fn gb(nanos: u64) -> f64 {
    nanos as f64 / 1e9
}

fn pct(p: &datapass::types::Percent) -> f64 {
    p.num as f64 / p.den as f64
}

#[test]
fn test_data_usage_calculations() {
    let data = DataUsage::new(
        GbQuantity::from_gb(10),
        GbQuantity::from_gb(50),
        Some("Test Plan".to_string()),
        None,
    );

    assert_eq!(data.used_nanos as f64 / 1e9, 40.0);
    assert_eq!(pct(&data.percentage), 80.0);
    assert_eq!(pct(&data.remaining_percentage()), 20.0);
}

#[test]
fn test_parse_minimal_html() {
    let html = r#"
        <!DOCTYPE html>
        <html>
        <head>
            <title>Data usage - Test Plan</title>
        </head>
        <body>
            <section class="data-pass-instance" id="test-pass">
                <div class="remaining-volume-value">5.5</div>
                <div class="start-volume">10</div>
            </section>
        </body>
        </html>
    "#;

    let result = parse_data_usage(html);
    assert!(
        result.is_ok(),
        "Failed to parse minimal HTML: {:?}",
        result.err()
    );

    let data = result.unwrap();
    assert_eq!(gb(data.remaining.nanos), 5.5);
    assert_eq!(gb(data.total.nanos), 10.0);
    assert_eq!(data.plan_name, Some("Test Plan".to_string()));
}

#[test]
fn test_parse_missing_data() {
    let html = r#"
        <!DOCTYPE html>
        <html>
        <head>
            <title>Data usage - Test</title>
        </head>
        <body>
            <p>No data here</p>
        </body>
        </html>
    "#;

    let result = parse_data_usage(html);
    assert!(result.is_err(), "Should fail when data is missing");
    assert!(matches!(
        result.unwrap_err(),
        DatapassError::StructureNotFound(_)
    ));
}

#[test]
fn test_parse_missing_title() {
    let html = r#"
        <!DOCTYPE html>
        <html>
        <head></head>
        <body>
            <section class="data-pass-instance">
                <div class="remaining-volume-value">5</div>
                <div class="start-volume">10</div>
            </section>
        </body>
        </html>
    "#;

    let result = parse_data_usage(html);
    assert!(result.is_err(), "Should fail when title is missing");
}

#[test]
fn test_parse_invalid_numbers() {
    let html = r#"
        <!DOCTYPE html>
        <html>
        <head>
            <title>Data usage - Test</title>
        </head>
        <body>
            <section class="data-pass-instance" id="test">
                <div class="remaining-volume-value">invalid</div>
                <div class="start-volume">10</div>
            </section>
        </body>
        </html>
    "#;

    let result = parse_data_usage(html);
    assert!(result.is_err(), "Should fail when numbers are invalid");
}

#[test]
fn test_skip_summation_pass() {
    let html = r#"
        <!DOCTYPE html>
        <html>
        <head>
            <title>Data usage - Multi Pass Plan</title>
        </head>
        <body>
            <section class="data-pass-instance" id="summationPass">
                <div class="remaining-volume-value">15</div>
                <div class="start-volume">50</div>
            </section>
            <section class="data-pass-instance" id="actual-pass">
                <div class="remaining-volume-value">10</div>
                <div class="start-volume">30</div>
            </section>
        </body>
        </html>
    "#;

    let result = parse_data_usage(html);
    assert!(result.is_ok());

    let data = result.unwrap();
    // Should use the actual pass, not the summation
    assert_eq!(gb(data.remaining.nanos), 10.0);
    assert_eq!(gb(data.total.nanos), 30.0);
}

#[test]
fn test_parse_validity_date() {
    let html = r#"
        <!DOCTYPE html>
        <html>
        <head>
            <title>Data usage - Test Plan</title>
        </head>
        <body>
            <section class="data-pass-instance" id="test-pass">
                <div class="remaining-volume-value">5.5</div>
                <div class="start-volume">10</div>
                <div class="info-row">Valid until: 12. February 2026</div>
            </section>
        </body>
        </html>
    "#;

    let result = parse_data_usage(html);
    assert!(result.is_ok(), "Failed to parse HTML: {:?}", result.err());

    let data = result.unwrap();
    assert_eq!(data.valid_until, Some("12. February 2026".to_string()));
}

#[test]
fn test_parse_validity_date_german() {
    let html = r#"
        <!DOCTYPE html>
        <html>
        <head>
            <title>Data usage - Test Plan</title>
        </head>
        <body>
            <section class="data-pass-instance" id="test-pass">
                <div class="remaining-volume-value">5.5</div>
                <div class="start-volume">10</div>
                <div class="info-row">Gültig bis: 21. Februar 2026</div>
            </section>
        </body>
        </html>
    "#;

    let result = parse_data_usage(html);
    assert!(result.is_ok(), "Failed to parse HTML: {:?}", result.err());

    let data = result.unwrap();
    assert_eq!(data.valid_until, Some("21. Februar 2026".to_string()));
}

#[test]
fn test_parse_german_numbers() {
    let html = r#"
            <!DOCTYPE html>
            <html>
            <head>
                <title>Datennutzung - MagentaMobil Prepaid XL</title>
            </head>
            <body>
                <section class="data-pass-instance" id="test-pass">
                    <div class="remaining-volume-value">38,36</div>
                    <div class="start-volume">51</div>
                </section>
            </body>
            </html>
        "#;

    let result = parse_data_usage(html);
    assert!(
        result.is_ok(),
        "Failed to parse German format HTML: {:?}",
        result.err()
    );

    let data = result.unwrap();
    assert_eq!(gb(data.remaining.nanos), 38.36);
    assert_eq!(gb(data.total.nanos), 51.0);
    assert_eq!(
        data.plan_name,
        Some("MagentaMobil Prepaid XL".to_string())
    );
}

#[test]
fn test_end_to_end_derived_fields() {
    let html = r#"
        <!DOCTYPE html>
        <html>
        <head>
            <title>Data usage - Test Plan</title>
        </head>
        <body>
            <section class="data-pass-instance" id="test-pass">
                <div class="remaining-volume-value">5.5</div>
                <div class="start-volume">10</div>
            </section>
        </body>
        </html>
    "#;

    let data = parse_data_usage(html).expect("extraction should succeed");
    assert_eq!(gb(data.remaining.nanos), 5.5);
    assert_eq!(gb(data.total.nanos), 10.0);
    assert_eq!(data.used_nanos as f64 / 1e9, 4.5);
    assert_eq!(pct(&data.percentage), 45.0);
    assert_eq!(data.plan_name, Some("Test Plan".to_string()));
    assert_eq!(data.valid_until, None);
    assert!(!data.is_unlimited);
}

#[test]
fn test_auth_wall_german() {
    let html = r#"
        <!DOCTYPE html>
        <html>
        <head>
            <title>Weiterleitung</title>
        </head>
        <body>
            <p>Direkter Zugriff auf die Seite nicht möglich.</p>
        </body>
        </html>
    "#;

    let result = parse_data_usage(html);
    assert!(matches!(
        result,
        Err(DatapassError::AuthenticationRequired)
    ));
}

#[test]
fn test_auth_wall_english() {
    let html = r#"
        <!DOCTYPE html>
        <html>
        <head>
            <title>Redirect</title>
        </head>
        <body>
            <p>DIRECT ACCESS TO THE PAGE NOT POSSIBLE</p>
        </body>
        </html>
    "#;

    let result = parse_data_usage(html);
    assert!(matches!(
        result,
        Err(DatapassError::AuthenticationRequired)
    ));
}

#[test]
fn test_auth_wall_takes_priority() {
    // Even a page that also holds a usage section is not extracted from
    // once it reads as a redirect wall.
    let html = r#"
        <!DOCTYPE html>
        <html>
        <head>
            <title>Data usage - Test Plan</title>
        </head>
        <body>
            <p>Eine Weiterleitung ist nicht möglich.</p>
            <section class="data-pass-instance" id="test-pass">
                <div class="remaining-volume-value">5.5</div>
                <div class="start-volume">10</div>
            </section>
        </body>
        </html>
    "#;

    let result = parse_data_usage(html);
    assert!(matches!(
        result,
        Err(DatapassError::AuthenticationRequired)
    ));
}

#[test]
fn test_unlimited_plan() {
    let html = r#"
        <!DOCTYPE html>
        <html>
        <head>
            <title>Data usage - Unlimited Plan</title>
        </head>
        <body>
            <section class="data-pass-instance" id="pass">
                <div class="unlimited-indicator">unlimited</div>
            </section>
        </body>
        </html>
    "#;

    let data = parse_data_usage(html).expect("unlimited plan should parse");
    assert!(data.is_unlimited);
    assert_eq!(data.remaining.nanos, 0);
    assert_eq!(data.total.nanos, 0);
    assert_eq!(data.plan_name, Some("Unlimited Plan".to_string()));
}

#[test]
fn test_plan_name_requires_hyphen() {
    let html = r#"
        <!DOCTYPE html>
        <html>
        <head>
            <title>Datennutzung</title>
        </head>
        <body>
            <section class="data-pass-instance" id="pass">
                <div class="remaining-volume-value">5</div>
                <div class="start-volume">10</div>
            </section>
        </body>
        </html>
    "#;

    let result = parse_data_usage(html);
    match result {
        Err(DatapassError::StructureNotFound(m)) => {
            assert_eq!(m, "Could not extract plan name from title");
        }
        other => panic!("expected StructureNotFound, got {:?}", other),
    }
}

#[test]
fn test_plan_name_normalizes_nbsp() {
    let html = "<!DOCTYPE html><html><head><title>Data usage -\u{a0}Magenta\u{a0}Plan </title></head><body><section class=\"data-pass-instance\" id=\"p\"><div class=\"remaining-volume-value\">1</div><div class=\"start-volume\">2</div></section></body></html>";

    let data = parse_data_usage(html).expect("should parse");
    assert_eq!(data.plan_name, Some("Magenta\u{a0}Plan".replace('\u{a0}', " ")));
    assert_eq!(data.plan_name, Some("Magenta Plan".to_string()));
}
