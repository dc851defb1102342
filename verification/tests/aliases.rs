use scjail_crawler_service::inmate::InmateProfile;

#[test]
fn test_get_aliases_basic() {
    let aliases = "John Doe, Jane Doe";
    assert_eq!(
        InmateProfile::get_aliases(aliases),
        Some(vec!["John Doe".to_string(), "Jane Doe".to_string()])
    );

    let aliases = "John, Jane Doe, Bob, Bobby, Bobert, Bob er tin a";
    assert_eq!(
        InmateProfile::get_aliases(aliases),
        Some(vec![
            "John".to_string(),
            "Jane Doe".to_string(),
            "Bob".to_string(),
            "Bobby".to_string(),
            "Bobert".to_string(),
            "Bob er tin a".to_string()
        ])
    );
}

#[test]
fn test_get_aliases_advanced() {
    let aliases = "John Doe, , , Jane Doe,    Marty McFly,  ";
    assert_eq!(
        InmateProfile::get_aliases(aliases),
        Some(vec![
            "John Doe".to_string(),
            "Jane Doe".to_string(),
            "Marty McFly".to_string()
        ])
    );
}

#[test]
fn test_aliases_empty_basic() {
    let aliases = "";
    assert_eq!(InmateProfile::get_aliases(aliases), None);
    let aliases = "             ";
    assert_eq!(InmateProfile::get_aliases(aliases), None);
    let aliases = ",";
    assert_eq!(InmateProfile::get_aliases(aliases), None);
}

#[test]
fn test_alias_empty_advanced() {
    let aliases = ",,, ,   ,";
    assert_eq!(InmateProfile::get_aliases(aliases), None);
    let aliases = " , ";
    assert_eq!(InmateProfile::get_aliases(aliases), None);
}

#[test]
fn aliases_keep_repeated_names_and_inner_spaces() {
    assert_eq!(
        InmateProfile::get_aliases("Al, Al ,  Big   Al"),
        Some(vec!["Al".to_string(), "Al".to_string(), "Big   Al".to_string()])
    );
}

#[test]
fn aliases_are_trimmed_of_every_kind_of_white_space() {
    assert_eq!(
        InmateProfile::get_aliases("\t Tab \n,\u{00a0}Wide\u{3000},\u{2003}"),
        Some(vec!["Tab".to_string(), "Wide".to_string()])
    );
}
