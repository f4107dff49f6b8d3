use fefix::dt::DataType;
use std::collections::HashSet;

#[test]
fn iter_all_unique() {
    let as_vec = DataType::iter_all().into_iter().collect::<Vec<DataType>>();
    let as_set = DataType::iter_all().into_iter().collect::<HashSet<DataType>>();
    assert_eq!(as_vec.len(), as_set.len());
}

#[test]
fn more_than_20_datatypes() {
    assert!(DataType::iter_all().into_iter().count() > 20);
}

#[test]
fn names_are_unique() {
    let as_vec = DataType::iter_all()
        .into_iter()
        .map(|dt| dt.name())
        .collect::<Vec<&str>>();
    let as_set = DataType::iter_all()
        .into_iter()
        .map(|dt| dt.name())
        .collect::<HashSet<&str>>();
    assert_eq!(as_vec.len(), as_set.len());
}

#[test]
fn base_type_is_itself() {
    for dt in DataType::iter_all() {
        if dt.is_base_type() {
            assert_eq!(dt.base_type(), dt);
        } else {
            assert_ne!(dt.base_type(), dt);
        }
    }
}

#[test]
fn base_type_is_actually_base_type() {
    for dt in DataType::iter_all() {
        assert!(dt.base_type().is_base_type());
    }
}

#[test]
fn base_type_is_idempotent() {
    for dt in DataType::iter_all() {
        assert_eq!(dt.base_type().base_type(), dt.base_type());
    }
}

#[test]
fn there_are_28_datatypes_and_4_base_types() {
    let all = DataType::iter_all();
    assert_eq!(all.len(), 28);
    let base: Vec<DataType> = all.into_iter().filter(|dt| dt.is_base_type()).collect();
    assert_eq!(
        base,
        vec![
            DataType::Char,
            DataType::Float,
            DataType::Int,
            DataType::String
        ]
    );
}

#[test]
fn base_types_of_some_datatypes() {
    assert_eq!(DataType::Float.base_type(), DataType::Float);
    assert_eq!(DataType::Price.base_type(), DataType::Float);
    assert_eq!(DataType::Boolean.base_type(), DataType::Char);
    assert_eq!(DataType::SeqNum.base_type(), DataType::Int);
    assert_eq!(DataType::TagNum.base_type(), DataType::Int);
    assert_eq!(DataType::Data.base_type(), DataType::String);
    assert_eq!(DataType::UtcTimestamp.base_type(), DataType::String);
    assert_eq!(DataType::Float.is_base_type(), true);
    assert_eq!(DataType::Price.is_base_type(), false);
}

#[test]
fn quickfix_names_are_found() {
    assert_eq!(DataType::from_quickfix_name("AMT"), Some(DataType::Amt));
    assert_eq!(
        DataType::from_quickfix_name("MONTHYEAR"),
        Some(DataType::MonthYear)
    );
    assert_eq!(
        DataType::from_quickfix_name("XMLDATA"),
        Some(DataType::XmlData)
    );
    assert_eq!(DataType::from_quickfix_name("TIME"), Some(DataType::UtcTimestamp));
    assert_eq!(DataType::from_quickfix_name("DATE"), Some(DataType::UtcDateOnly));
    assert_eq!(
        DataType::from_quickfix_name("TZTIMEONLY"),
        Some(DataType::UtcTimeOnly)
    );
}

#[test]
fn quickfix_names_are_case_sensitive() {
    assert_eq!(DataType::from_quickfix_name("Amt"), None);
    assert_eq!(DataType::from_quickfix_name("amt"), None);
    assert_eq!(DataType::from_quickfix_name("AMt"), None);
    assert_eq!(DataType::from_quickfix_name("String"), None);
    assert_eq!(DataType::from_quickfix_name("STRING"), Some(DataType::String));
}

#[test]
fn unknown_quickfix_names_are_not_found() {
    assert_eq!(DataType::from_quickfix_name(""), None);
    assert_eq!(DataType::from_quickfix_name("AMT "), None);
    assert_eq!(DataType::from_quickfix_name("AM"), None);
    assert_eq!(DataType::from_quickfix_name("TAGNUM"), None);
    assert_eq!(DataType::from_quickfix_name("\u{c5}MT"), None);
}

#[test]
fn several_quickfix_names_stand_for_one_datatype() {
    assert_eq!(
        DataType::from_quickfix_name("MULTIPLECHARVALUE"),
        Some(DataType::MultipleCharValue)
    );
    assert_eq!(
        DataType::from_quickfix_name("MULTIPLEVALUESTRING"),
        Some(DataType::MultipleCharValue)
    );
    assert_eq!(
        DataType::from_quickfix_name("MULTIPLESTRINGVALUE"),
        Some(DataType::MultipleStringValue)
    );
    assert_eq!(DataType::from_quickfix_name("INT"), Some(DataType::Int));
    assert_eq!(DataType::from_quickfix_name("LENGTH"), Some(DataType::Int));
    assert_eq!(DataType::from_quickfix_name("SEQNUM"), Some(DataType::Int));
    assert_eq!(
        DataType::from_quickfix_name("UTCDATE"),
        Some(DataType::UtcDateOnly)
    );
    assert_eq!(
        DataType::from_quickfix_name("UTCDATEONLY"),
        Some(DataType::UtcDateOnly)
    );
}

#[test]
fn names_follow_the_guidelines() {
    assert_eq!(DataType::Qty.name(), "Qty");
    assert_eq!(DataType::Float.name(), "float");
    assert_eq!(DataType::String.name(), "String");
    assert_eq!(DataType::Data.name(), "data");
    assert_eq!(DataType::Int.name(), "int");
    assert_eq!(DataType::Char.name(), "char");
    assert_eq!(DataType::XmlData.name(), "XMLData");
    assert_eq!(DataType::UtcTimeOnly.name(), "UTCTimeOnly");
}

#[test]
fn quickfix_name_of_each_datatype_is_its_name() {
    for dt in DataType::iter_all() {
        assert_eq!(dt.to_quickfix_name(), dt.name());
    }
    assert_eq!(DataType::UtcDateOnly.to_quickfix_name(), "UTCDateOnly");
    assert_eq!(DataType::MultipleCharValue.to_quickfix_name(), "MultipleCharValue");
}
