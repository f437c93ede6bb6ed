use rustex::content::Core;

#[test]
fn it_works() {
    assert_eq!(2 + 2, 4);
    assert_eq!(Core::text("2 + 2"), Core::RawText("2 + 2".to_string()));
}
