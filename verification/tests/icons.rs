use forecast::icon::Icon;

#[test]
fn each_known_code_gives_its_condition() {
    assert_eq!(Icon::from_code("clear-day"), Icon::ClearDay);
    assert_eq!(Icon::from_code("clear-night"), Icon::ClearNight);
    assert_eq!(Icon::from_code("rain"), Icon::Rain);
    assert_eq!(Icon::from_code("snow"), Icon::Snow);
    assert_eq!(Icon::from_code("sleet"), Icon::Sleet);
    assert_eq!(Icon::from_code("wind"), Icon::Wind);
    assert_eq!(Icon::from_code("fog"), Icon::Fog);
    assert_eq!(Icon::from_code("cloudy"), Icon::Cloudy);
    assert_eq!(Icon::from_code("partly-cloudy-day"), Icon::PartlyCloudyDay);
    assert_eq!(Icon::from_code("partly-cloudy-night"), Icon::PartlyCloudyNight);
}

#[test]
fn any_other_code_is_kept_as_it_came() {
    assert_eq!(Icon::from_code("hail"), Icon::Unknown("hail".to_string()));
    assert_eq!(Icon::from_code("tornado"), Icon::Unknown("tornado".to_string()));
    assert_eq!(Icon::from_code(""), Icon::Unknown(String::new()));
    assert_eq!(Icon::from_code("brouillard épais"), Icon::Unknown("brouillard épais".to_string()));
}

#[test]
fn codes_are_matched_exactly() {
    assert_eq!(Icon::from_code("Rain"), Icon::Unknown("Rain".to_string()));
    assert_eq!(Icon::from_code("RAIN"), Icon::Unknown("RAIN".to_string()));
    assert_eq!(Icon::from_code("rain "), Icon::Unknown("rain ".to_string()));
    assert_eq!(Icon::from_code("clear_day"), Icon::Unknown("clear_day".to_string()));
    assert_eq!(Icon::from_code("partly-cloudy"), Icon::Unknown("partly-cloudy".to_string()));
}
