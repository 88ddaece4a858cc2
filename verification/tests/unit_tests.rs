use datapass::cli::Cli;
use datapass::cli::Format;
use datapass::display;
use datapass::display::OutputFormat;
use datapass::display::RemainingLevel;
use datapass::error::NumberFault;
use datapass::model;
use datapass::model::SectionModel;
use datapass::num::parse_quantity;
use datapass::types::GbQuantity;
use datapass::watch::TuiApp;
use datapass::DataUsage;
use datapass::DatapassError;

fn base_cli() -> Cli {
    Cli {
        format: Format::Human,
        color: false,
        used: false,
        total: false,
        remaining: false,
        percentage: false,
        plan: false,
        watch: None,
        url: None,
        file: None,
        verbose: false,
        log: None,
        generate_completions: None,
        generate_man: false,
    }
}

#[test]
fn test_parse_quantity_german_comma() {
    let q = parse_quantity("38,36").expect("should parse");
    assert_eq!(q.nanos as f64 / 1e9, 38.36);
}

#[test]
fn test_parse_quantity_plain_integer() {
    let q = parse_quantity("51").expect("should parse");
    assert_eq!(q.nanos as f64 / 1e9, 51.0);
}

#[test]
fn test_parse_quantity_invalid_keeps_text() {
    match parse_quantity("invalid") {
        Err(DatapassError::NumberFormat { text, fault }) => {
            assert_eq!(text, "invalid");
            assert_eq!(fault, NumberFault::InvalidChar);
        }
        other => panic!("expected NumberFormat, got {:?}", other),
    }
}

#[test]
fn test_parse_quantity_empty() {
    match parse_quantity("") {
        Err(DatapassError::NumberFormat { text, fault }) => {
            assert_eq!(text, "");
            assert_eq!(fault, NumberFault::Empty);
        }
        other => panic!("expected NumberFormat, got {:?}", other),
    }
}

#[test]
fn test_parse_quantity_lone_separator() {
    match parse_quantity(",") {
        Err(DatapassError::NumberFormat { fault, .. }) => {
            assert_eq!(fault, NumberFault::Empty);
        }
        other => panic!("expected NumberFormat, got {:?}", other),
    }
}

#[test]
fn test_parse_quantity_two_separators() {
    match parse_quantity("1,2.3") {
        Err(DatapassError::NumberFormat { fault, .. }) => {
            assert_eq!(fault, NumberFault::InvalidChar);
        }
        other => panic!("expected NumberFormat, got {:?}", other),
    }
}

#[test]
fn test_parse_quantity_too_precise() {
    match parse_quantity("1.0123456789") {
        Err(DatapassError::NumberFormat { fault, .. }) => {
            assert_eq!(fault, NumberFault::TooManyFractionDigits);
        }
        other => panic!("expected NumberFormat, got {:?}", other),
    }
}

#[test]
fn test_parse_quantity_too_large() {
    match parse_quantity("1234567890") {
        Err(DatapassError::NumberFormat { fault, .. }) => {
            assert_eq!(fault, NumberFault::TooLarge);
        }
        other => panic!("expected NumberFormat, got {:?}", other),
    }
}

#[test]
fn test_parse_quantity_leading_zeros() {
    let q = parse_quantity("007,50").expect("should parse");
    assert_eq!(q.nanos as f64 / 1e9, 7.5);
}

#[test]
fn test_parse_quantity_bare_fraction() {
    let q = parse_quantity(".5").expect("should parse");
    assert_eq!(q.nanos as f64 / 1e9, 0.5);
    let q = parse_quantity("5.").expect("should parse");
    assert_eq!(q.nanos as f64 / 1e9, 5.0);
}

#[test]
fn test_number_error_message() {
    let e = parse_quantity("invalid").unwrap_err();
    assert_eq!(
        e.message(),
        "Invalid number value 'invalid': invalid character"
    );
}

#[test]
fn test_zero_total_percentage_guard() {
    let data = DataUsage::new(
        GbQuantity::from_gb(7),
        GbQuantity { nanos: 0 },
        None,
        None,
    );
    assert_eq!(data.percentage.num, 0);
    assert_eq!(data.percentage.den, 1);
}

#[test]
fn test_percentages_sum_to_100() {
    let data = DataUsage::new(
        GbQuantity { nanos: 2_880_000_000 },
        GbQuantity::from_gb(25),
        None,
        None,
    );
    let p = data.percentage;
    let r = data.remaining_percentage();
    // exact rational identity over the common denominator
    assert_eq!(p.den, r.den);
    assert_eq!(p.num + r.num, 100 * p.den as i128);
    // and within floating-point tolerance
    let sum = p.num as f64 / p.den as f64 + r.num as f64 / r.den as f64;
    assert!((sum - 100.0).abs() < 1e-9);
    // used + remaining == total, exactly
    assert_eq!(
        data.used_nanos as i128 + data.remaining.nanos as i128,
        data.total.nanos as i128
    );
}

#[test]
fn test_fmt_two_decimals() {
    let q = parse_quantity("38,36").unwrap();
    assert_eq!(display::fmt_gb(&q), "38.36");
    let q = parse_quantity("5.5").unwrap();
    assert_eq!(display::fmt_gb(&q), "5.50");
    let q = parse_quantity("0.005").unwrap();
    assert_eq!(display::fmt_gb(&q), "0.01");
}

#[test]
fn test_fmt_signed() {
    let data = DataUsage::new(
        GbQuantity::from_gb(30),
        GbQuantity::from_gb(10),
        None,
        None,
    );
    // more remaining than total: used is negative
    assert_eq!(display::fmt_signed_gb(data.used_nanos), "-20.00");
}

#[test]
fn test_fmt_percent() {
    let data = DataUsage::new(
        GbQuantity { nanos: 2_880_000_000 },
        GbQuantity::from_gb(25),
        None,
        None,
    );
    assert_eq!(display::fmt_percent(&data.percentage), "88.48");
    assert_eq!(
        display::fmt_percent(&data.remaining_percentage()),
        "11.52"
    );
}

#[test]
fn test_bar_cells_rounding() {
    let data = DataUsage::new(
        GbQuantity { nanos: 5_500_000_000 },
        GbQuantity::from_gb(10),
        None,
        None,
    );
    // 45% of 40 cells = 18
    let (filled, empty) = display::bar_cells(&data.percentage);
    assert_eq!(filled, 18);
    assert_eq!(empty, 22);

    let zero = DataUsage::new(GbQuantity::from_gb(10), GbQuantity::from_gb(10), None, None);
    let (filled, empty) = display::bar_cells(&zero.percentage);
    assert_eq!(filled, 0);
    assert_eq!(empty, 40);

    let full = DataUsage::new(GbQuantity { nanos: 0 }, GbQuantity::from_gb(10), None, None);
    let (filled, _) = display::bar_cells(&full.percentage);
    assert_eq!(filled, 40);
}

#[test]
fn test_remaining_level_thresholds() {
    let mk = |remaining: u64, total: u32| {
        DataUsage::new(
            GbQuantity { nanos: remaining },
            GbQuantity::from_gb(total),
            None,
            None,
        )
    };
    // 60% remaining -> plenty
    assert_eq!(
        display::remaining_level(&mk(6_000_000_000, 10).percentage),
        RemainingLevel::Plenty
    );
    // 30% remaining -> low
    assert_eq!(
        display::remaining_level(&mk(3_000_000_000, 10).percentage),
        RemainingLevel::Low
    );
    // 10% remaining -> critical
    assert_eq!(
        display::remaining_level(&mk(1_000_000_000, 10).percentage),
        RemainingLevel::Critical
    );
    // exactly 50% remaining is not "plenty"
    assert_eq!(
        display::remaining_level(&mk(5_000_000_000, 10).percentage),
        RemainingLevel::Low
    );
}

#[test]
fn test_single_value_text() {
    let data = DataUsage::new(
        GbQuantity { nanos: 5_500_000_000 },
        GbQuantity::from_gb(10),
        Some("Test Plan".to_string()),
        None,
    );
    assert_eq!(
        display::single_value_text(&data, OutputFormat::Used),
        Some("4.50".to_string())
    );
    assert_eq!(
        display::single_value_text(&data, OutputFormat::Total),
        Some("10.00".to_string())
    );
    assert_eq!(
        display::single_value_text(&data, OutputFormat::Remaining),
        Some("5.50".to_string())
    );
    assert_eq!(
        display::single_value_text(&data, OutputFormat::Percentage),
        Some("45.00".to_string())
    );
    assert_eq!(
        display::single_value_text(&data, OutputFormat::Plan),
        Some("Test Plan".to_string())
    );
    assert_eq!(display::single_value_text(&data, OutputFormat::Human), None);

    let unlimited = DataUsage::unlimited(None, None);
    assert_eq!(
        display::single_value_text(&unlimited, OutputFormat::Used),
        Some("unlimited".to_string())
    );
    assert_eq!(
        display::single_value_text(&unlimited, OutputFormat::Plan),
        None
    );
}

#[test]
fn test_human_lines() {
    let data = DataUsage::new(
        GbQuantity { nanos: 5_500_000_000 },
        GbQuantity::from_gb(10),
        Some("Test Plan".to_string()),
        Some("12. February 2026".to_string()),
    );
    let lines = display::human_lines(&data);
    assert_eq!(lines.len(), 6);
    assert_eq!(lines[0], "Plan: Test Plan");
    assert_eq!(lines[1], "Valid until: 12. February 2026");
    assert_eq!(lines[2], "Used:      4.50 GB (45.00%)");
    assert_eq!(lines[3], "Total:     10.00 GB (100%)");
    assert_eq!(lines[4], "Remaining: 5.50 GB (55.00%)");
    let bar: String = "█".repeat(18) + &"░".repeat(22) + " 45.00%";
    assert_eq!(lines[5], bar);
}

#[test]
fn test_human_lines_unlimited() {
    let data = DataUsage::unlimited(Some("Unlimited Plan".to_string()), None);
    let lines = display::human_lines(&data);
    assert_eq!(lines.len(), 3);
    assert_eq!(lines[0], "Plan: Unlimited Plan");
    assert_eq!(lines[1], "Data:      unlimited");
    assert_eq!(lines[2], "█".repeat(40) + " unlimited");
}

#[test]
fn test_cli_validate_watch_conflict() {
    let mut cli = base_cli();
    cli.watch = Some(5);
    cli.used = true;
    assert_eq!(
        cli.validate(),
        Err("Watch mode is not compatible with single value output flags".to_string())
    );
}

#[test]
fn test_cli_validate_file_url_conflict() {
    let mut cli = base_cli();
    cli.file = Some("page.html".to_string());
    cli.url = Some("https://example.invalid".to_string());
    assert_eq!(
        cli.validate(),
        Err("Cannot specify both --file and --url".to_string())
    );
}

#[test]
fn test_cli_validate_ok() {
    let mut cli = base_cli();
    cli.watch = Some(5);
    assert_eq!(cli.validate(), Ok(()));
}

#[test]
fn test_cli_output_format_priority() {
    let mut cli = base_cli();
    assert_eq!(cli.get_output_format(), OutputFormat::Human);
    cli.format = Format::Json;
    assert_eq!(cli.get_output_format(), OutputFormat::Json);
    cli.plan = true;
    assert_eq!(cli.get_output_format(), OutputFormat::Plan);
    cli.percentage = true;
    assert_eq!(cli.get_output_format(), OutputFormat::Percentage);
    cli.remaining = true;
    assert_eq!(cli.get_output_format(), OutputFormat::Remaining);
    cli.total = true;
    assert_eq!(cli.get_output_format(), OutputFormat::Total);
    cli.used = true;
    assert_eq!(cli.get_output_format(), OutputFormat::Used);
}

#[test]
fn test_watch_state() {
    let mut app = TuiApp::new(30);
    assert!(app.data.is_none());
    assert!(app.error.is_none());
    assert!(!app.should_refresh(29));
    assert!(app.should_refresh(30));
    assert_eq!(app.next_refresh_in(12), 18);
    assert_eq!(app.next_refresh_in(45), 0);

    let data = DataUsage::new(GbQuantity::from_gb(1), GbQuantity::from_gb(2), None, None);
    app.update_data(Ok(data));
    assert!(app.data.is_some());
    assert!(app.error.is_none());

    app.update_data(Err(DatapassError::StructureNotFound(
        "Title not found".to_string(),
    )));
    // the old record is kept, the error is shown
    assert!(app.data.is_some());
    assert_eq!(
        app.error,
        Some("Error: Data not found in HTML: Title not found".to_string())
    );
}

#[test]
fn test_extract_plan_name_direct() {
    let title = Some("Data usage - MagentaMobil Prepaid L".to_string());
    assert_eq!(
        model::extract_plan_name(&title),
        Ok("MagentaMobil Prepaid L".to_string())
    );
    match model::extract_plan_name(&None) {
        Err(DatapassError::StructureNotFound(m)) => assert_eq!(m, "Title not found"),
        other => panic!("expected StructureNotFound, got {:?}", other),
    }
}

#[test]
fn test_extract_quantities_skips_summation() {
    let sections = vec![
        SectionModel {
            id: Some("summationPass".to_string()),
            remaining: Some("15".to_string()),
            total: Some("50".to_string()),
            unlimited: false,
        },
        SectionModel {
            id: Some("actual-pass".to_string()),
            remaining: Some(" 10 ".to_string()),
            total: Some("30".to_string()),
            unlimited: false,
        },
    ];
    match model::extract_quantities(&sections) {
        Ok(model::Volumes::Metered { remaining, total }) => {
            assert_eq!(remaining.nanos, 10_000_000_000);
            assert_eq!(total.nanos, 30_000_000_000);
        }
        other => panic!("expected metered volumes, got {:?}", other),
    }
}

#[test]
fn test_extract_valid_until_none() {
    let rows = vec!["Something else".to_string()];
    assert_eq!(model::extract_valid_until(&rows), None);
}

#[test]
fn test_extract_valid_until_keeps_everything_after_first_colon() {
    let rows = vec!["Valid until: 12. February 2026, 23:59".to_string()];
    assert_eq!(
        model::extract_valid_until(&rows),
        Some("12. February 2026, 23:59".to_string())
    );
}

#[test]
fn test_extract_valid_until_picks_first_matching_row() {
    let rows = vec![
        "Booked on: 1. January 2026".to_string(),
        "Valid until: 12. February 2026".to_string(),
        "Gültig bis: 21. Februar 2026".to_string(),
    ];
    assert_eq!(
        model::extract_valid_until(&rows),
        Some("12. February 2026".to_string())
    );
}

#[test]
fn test_classify_is_case_insensitive() {
    assert!(model::classify("... DIREKTER ZUGRIFF auf die Seite ..."));
    assert!(!model::classify("an ordinary usage page"));
}

#[test]
fn test_auth_message_is_actionable() {
    let msg = DatapassError::AuthenticationRequired.message();
    assert!(msg.contains("--file"));
    assert!(msg.contains("Authentication required"));
}
