use robot_boilerplate::auto::auto::Auto;

#[test]
fn from_dashboard_known_name() {
    assert_eq!(Auto::from_dashboard("Nothing"), Auto::Nothing);
}

#[test]
fn from_dashboard_unknown_name_defaults_to_nothing() {
    assert_eq!(Auto::from_dashboard("Score Three"), Auto::Nothing);
    assert_eq!(Auto::from_dashboard(""), Auto::Nothing);
    assert_eq!(Auto::from_dashboard("nothing"), Auto::Nothing);
}

#[test]
fn name_of_nothing() {
    assert_eq!(Auto::Nothing.name(), "Nothing");
}

#[test]
fn iterator_lists_routines() {
    assert_eq!(Auto::iterator(), vec![Auto::Nothing]);
}

#[test]
fn names_match_iterator() {
    let names = Auto::names();
    assert_eq!(names, vec!["Nothing".to_string()]);
    let autos = Auto::iterator();
    assert_eq!(names.len(), autos.len());
    for (n, a) in names.iter().zip(autos.iter()) {
        assert_eq!(n.as_str(), a.name());
    }
}

#[test]
fn name_round_trip() {
    for a in Auto::iterator() {
        assert_eq!(Auto::from_dashboard(a.name()), a);
    }
}
