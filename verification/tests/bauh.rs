use snowcone::backends::bauh::Manager;
use snowcone::error::Error;
use snowcone::profile::{basic_capabilities, Operation};

#[test]
fn advertises_only_the_core_set() {
    let capabilities = Manager.profile().capabilities;
    assert_eq!(capabilities, basic_capabilities());
    assert!(!capabilities.offers(Operation::Search));
    assert!(!capabilities.offers(Operation::Upgrade));
}

#[test]
fn operations_explain_the_gui_limitation() {
    let message = match Manager.gui_only("install") {
        Error::Other(message) => message,
        other => panic!("{other:?}"),
    };
    assert!(message.contains("bauh"));
    assert!(message.contains("GUI"));
    assert!(message.contains("install"));
}
