use gree::text::{decimal_text, parse_u8, str_eq};
use gree::vars::{
    name_of, parse_value, Mod, OnOff, SwUpDn, SwingLfRig, TemUn, WdSpd, AIR, ALL, BLO, HEALTH,
    HEAT_COOL_TYPE, LIG, MOD, POW, QUIET, SET_TEM, ST_HT, SV_ST, SWH_SLP, SWING_LF_RIG, SW_UP_DN,
    TEM_REC, TEM_SEN, TEM_UN, TIME, TUR, WD_SPD,
};
use gree::{Error, Value};

#[test]
fn catalog_holds_twenty_names() {
    assert_eq!(
        ALL,
        [
            "Pow",
            "Mod",
            "SetTem",
            "TemUn",
            "WdSpd",
            "Air",
            "Blo",
            "Health",
            "SwhSlp",
            "Lig",
            "SwingLfRig",
            "SwUpDn",
            "Quiet",
            "Tur",
            "StHt",
            "HeatCoolType",
            "TemRec",
            "SvSt",
            "TemSen",
            "time"
        ]
    );
}

#[test]
fn name_of_knows_each_name_of_the_catalog() {
    for name in ALL {
        let owned = String::from(name);
        assert_eq!(name_of(&owned), Some(name));
    }
    assert_eq!(name_of("Pow"), Some(POW));
    assert_eq!(name_of("time"), Some(TIME));
}

#[test]
fn name_of_knows_nothing_else() {
    assert_eq!(name_of(""), None);
    assert_eq!(name_of("pow"), None);
    assert_eq!(name_of("POW"), None);
    assert_eq!(name_of("Pow "), None);
    assert_eq!(name_of("Time"), None);
    assert_eq!(name_of("Po"), None);
    assert_eq!(name_of("Powe"), None);
    assert_eq!(name_of("Températur"), None);
}

#[test]
fn strings_compare_by_their_characters() {
    assert!(str_eq("", ""));
    assert!(str_eq("abc", "abc"));
    assert!(str_eq("é❤", "é❤"));
    assert!(!str_eq("abc", "abd"));
    assert!(!str_eq("abc", "ab"));
    assert!(!str_eq("", "a"));
    assert!(!str_eq("e", "é"));
}

#[test]
fn flags_take_zero_and_one() {
    for name in [POW, TEM_UN, AIR, BLO, HEALTH, SWH_SLP, LIG, QUIET, TUR, SV_ST, ST_HT] {
        assert_eq!(parse_value(name, "0"), Ok(Value::Number(0)));
        assert_eq!(parse_value(name, "1"), Ok(Value::Number(1)));
        assert_eq!(
            parse_value(name, "2"),
            Err(Error::InvalidValue(name, String::from("2")))
        );
        assert_eq!(
            parse_value(name, "255"),
            Err(Error::InvalidValue(name, String::from("255")))
        );
    }
}

#[test]
fn power_refuses_two() {
    let r = parse_value(POW, "2");
    assert_eq!(r, Err(Error::InvalidValue("Pow", String::from("2"))));
}

#[test]
fn bytes_take_every_byte() {
    for name in [MOD, SET_TEM, TEM_REC, WD_SPD, SWING_LF_RIG, SW_UP_DN] {
        assert_eq!(parse_value(name, "0"), Ok(Value::Number(0)));
        assert_eq!(parse_value(name, "27"), Ok(Value::Number(27)));
        assert_eq!(parse_value(name, "255"), Ok(Value::Number(255)));
        assert_eq!(
            parse_value(name, "256"),
            Err(Error::InvalidValue(name, String::from("256")))
        );
    }
}

#[test]
fn numbers_refuse_what_is_no_number() {
    for literal in ["", "abc", "-1", " 1", "1 ", "1.0", "+", "0x10", "1_0", "٣"] {
        assert_eq!(
            parse_value(POW, literal),
            Err(Error::InvalidValue(POW, String::from(literal)))
        );
        assert_eq!(
            parse_value(SET_TEM, literal),
            Err(Error::InvalidValue(SET_TEM, String::from(literal)))
        );
    }
}

#[test]
fn numbers_take_a_plus_sign_and_leading_zeros() {
    assert_eq!(parse_value(SET_TEM, "+27"), Ok(Value::Number(27)));
    assert_eq!(parse_value(SET_TEM, "007"), Ok(Value::Number(7)));
    assert_eq!(parse_value(POW, "+1"), Ok(Value::Number(1)));
    assert_eq!(parse_value(POW, "0000"), Ok(Value::Number(0)));
}

#[test]
fn strings_are_taken_as_they_are() {
    assert_eq!(
        parse_value(TIME, "2018-05-11 19:42:01"),
        Ok(Value::Text(String::from("2018-05-11 19:42:01")))
    );
    assert_eq!(parse_value(TIME, ""), Ok(Value::Text(String::new())));
    // variables without a declared domain take the literal as a string
    assert_eq!(parse_value(TEM_SEN, "65"), Ok(Value::Text(String::from("65"))));
    assert_eq!(parse_value(HEAT_COOL_TYPE, "x"), Ok(Value::Text(String::from("x"))));
    assert_eq!(parse_value("Other", "1"), Ok(Value::Text(String::from("1"))));
}

#[test]
fn parse_u8_reads_what_the_standard_parser_reads() {
    let mut literals: Vec<String> = Vec::new();
    for n in 0..=300u32 {
        literals.push(n.to_string());
        literals.push(format!("+{}", n));
        literals.push(format!("-{}", n));
        literals.push(format!("0{}", n));
        literals.push(format!("{} ", n));
        literals.push(format!(" {}", n));
    }
    for s in ["", "+", "-", "++1", "+-1", "1+", "a", "1a", "a1", "１", "1e2", "0000000000255", "00000000000256"] {
        literals.push(String::from(s));
    }
    for literal in literals {
        assert_eq!(parse_u8(&literal), literal.parse::<u8>().ok(), "{:?}", literal);
    }
}

#[test]
fn decimal_text_writes_what_the_standard_formatter_writes() {
    for n in [0usize, 1, 9, 10, 11, 99, 100, 101, 255, 256, 1000, 65_535, 1_000_000, usize::MAX] {
        assert_eq!(decimal_text(n), n.to_string());
    }
}

#[test]
fn enums_have_their_wire_codes() {
    assert_eq!(OnOff::Off.code(), 0);
    assert_eq!(OnOff::On.code(), 1);
    assert_eq!(Mod::Auto.code(), 0);
    assert_eq!(Mod::Cool.code(), 1);
    assert_eq!(Mod::Dry.code(), 2);
    assert_eq!(Mod::Fan.code(), 3);
    assert_eq!(Mod::Heat.code(), 4);
    assert_eq!(TemUn::Celsius.code(), 0);
    assert_eq!(TemUn::Fahrenheit.code(), 1);
    assert_eq!(WdSpd::Auto.code(), 0);
    assert_eq!(WdSpd::Low.code(), 1);
    assert_eq!(WdSpd::MediumLow.code(), 2);
    assert_eq!(WdSpd::Medium.code(), 3);
    assert_eq!(WdSpd::MediumHigh.code(), 4);
    assert_eq!(WdSpd::High.code(), 5);
    assert_eq!(SwingLfRig::Default.code(), 0);
    assert_eq!(SwingLfRig::Full.code(), 1);
    assert_eq!(SwingLfRig::Pos0.code(), 2);
    assert_eq!(SwingLfRig::Pos4.code(), 6);
    assert_eq!(SwUpDn::Default.code(), 0);
    assert_eq!(SwUpDn::Full.code(), 1);
    assert_eq!(SwUpDn::Fixed1.code(), 2);
    assert_eq!(SwUpDn::Fixed5.code(), 6);
    assert_eq!(SwUpDn::Swing5.code(), 7);
    assert_eq!(SwUpDn::Swing1.code(), 11);
}
