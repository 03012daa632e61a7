use vehicle_fetch::PresenterKind;
use vehicle_fetch::VehicleRecord;
use vehicle_fetch::format_line;
use vehicle_fetch::present;
use vehicle_fetch::json_body;
use vehicle_fetch::text_lines;
use vehicle_fetch::text_output;

#[test]
fn format_line_space_joins_the_three_fields() {
    let rec = VehicleRecord {
        manufacturing_year: "2020".to_string(),
        make: "Toyota".to_string(),
        model: "Corolla".to_string(),
    };
    assert_eq!(format_line(&rec), "2020 Toyota Corolla");
}

#[test]
fn two_records_text_output() {
    let records = vec![
        VehicleRecord {
            manufacturing_year: "2020".to_string(),
            make: "Toyota".to_string(),
            model: "Corolla".to_string(),
        },
        VehicleRecord {
            manufacturing_year: "2019".to_string(),
            make: "Honda".to_string(),
            model: "Civic".to_string(),
        },
    ];
    assert_eq!(text_output(&records), "2020 Toyota Corolla\n2019 Honda Civic\n");
    let lines = text_lines(&records);
    assert_eq!(lines.len(), 2);
    assert_eq!(lines[0], "2020 Toyota Corolla");
    assert_eq!(lines[1], "2019 Honda Civic");
}

#[test]
fn two_records_json_body() {
    let records = vec![
        VehicleRecord {
            manufacturing_year: "2020".to_string(),
            make: "Toyota".to_string(),
            model: "Corolla".to_string(),
        },
        VehicleRecord {
            manufacturing_year: "2019".to_string(),
            make: "Honda".to_string(),
            model: "Civic".to_string(),
        },
    ];
    assert_eq!(
        json_body(&records),
        "{\"data\":[{\"manufacturing_year\":\"2020\",\"make\":\"Toyota\",\"model\":\"Corolla\"},{\"manufacturing_year\":\"2019\",\"make\":\"Honda\",\"model\":\"Civic\"}]}"
    );
}

#[test]
fn empty_list_presents_as_empty_not_null() {
    let records: Vec<VehicleRecord> = Vec::new();
    assert_eq!(json_body(&records), "{\"data\":[]}");
    assert_eq!(text_output(&records), "");
    assert_eq!(text_lines(&records).len(), 0);
}

#[test]
fn json_body_escapes_field_text() {
    let records = vec![VehicleRecord {
        manufacturing_year: "20\"20".to_string(),
        make: "a\\b".to_string(),
        model: "c\nd\te\u{1}f".to_string(),
    }];
    assert_eq!(
        json_body(&records),
        "{\"data\":[{\"manufacturing_year\":\"20\\\"20\",\"make\":\"a\\\\b\",\"model\":\"c\\nd\\te\\u0001f\"}]}"
    );
}

#[test]
fn presenter_strategy_picks_the_format() {
    let records = vec![VehicleRecord {
        manufacturing_year: "2020".to_string(),
        make: "Toyota".to_string(),
        model: "Corolla".to_string(),
    }];
    assert_eq!(present(&records, PresenterKind::Text), "2020 Toyota Corolla\n");
    assert_eq!(
        present(&records, PresenterKind::Json),
        "{\"data\":[{\"manufacturing_year\":\"2020\",\"make\":\"Toyota\",\"model\":\"Corolla\"}]}"
    );
}

#[test]
fn presenters_agree_on_the_same_list() {
    let records = vec![
        VehicleRecord {
            manufacturing_year: "1999".to_string(),
            make: "Saab".to_string(),
            model: "9-5".to_string(),
        },
        VehicleRecord {
            manufacturing_year: "2001".to_string(),
            make: "Volvo".to_string(),
            model: "V70".to_string(),
        },
    ];
    let lines = text_lines(&records);
    let json = json_body(&records);
    assert_eq!(lines.len(), records.len());
    for (i, rec) in records.iter().enumerate() {
        assert_eq!(
            lines[i],
            format!("{} {} {}", rec.manufacturing_year, rec.make, rec.model)
        );
        assert!(json.contains(&format!(
            "{{\"manufacturing_year\":\"{}\",\"make\":\"{}\",\"model\":\"{}\"}}",
            rec.manufacturing_year, rec.make, rec.model
        )));
    }
}
