use olvm::model::Parameter;
use olvm::parser::Command;

#[test]
fn parameter_from_str_valid() {
    let p = Parameter::from_str("key1 value1").unwrap();

    assert_eq!(p.key.as_str(), "key1");
    assert_eq!(p.value.as_str(), "value1");

    let p = Parameter::from_str("key2  value2").unwrap();

    assert_eq!(p.key.as_str(), "key2");
    assert_eq!(p.value.as_str(), "value2");

    let p = Parameter::from_str("key3\tvalue3").unwrap();

    assert_eq!(p.key.as_str(), "key3");
    assert_eq!(p.value.as_str(), "value3");

    let p = Parameter::from_str("key4\t \t value4").unwrap();

    assert_eq!(p.key.as_str(), "key4");
    assert_eq!(p.value.as_str(), "value4");
}

#[test]
#[should_panic]
fn parameter_from_str_invalid() {
    Parameter::from_str("key1").unwrap();
    Parameter::from_str("key2\nvalue2").unwrap();
}

#[test]
fn command_from_str_valid() {
    let c = Command::from_str("listvm").unwrap();

    assert_eq!(c.name.as_str(), "listvm");
    assert_eq!(c.parameters.len(), 0);

    let c = Command::from_str("\t listimg   ").unwrap();

    assert_eq!(c.name.as_str(), "listimg");
    assert_eq!(c.parameters.len(), 0);

    let c = Command::from_str("createvm, name test, cpus 1, ram 512").unwrap();

    assert_eq!(c.name.as_str(), "createvm");
    assert_eq!(c.parameters.len(), 3);

    assert_eq!(c.parameters[0].key.as_str(), "name");
    assert_eq!(c.parameters[0].value.as_str(), "test");

    assert_eq!(c.parameters[1].key.as_str(), "cpus");
    assert_eq!(c.parameters[1].value.as_str(), "1");

    assert_eq!(c.parameters[2].key.as_str(), "ram");
    assert_eq!(c.parameters[2].value.as_str(), "512");
}

#[test]
fn tests_command_from_str_valid() {
    let c = Command::from_str("listvm").unwrap();

    assert_eq!(c.name.as_str(), "listvm");
    assert_eq!(c.parameters.len(), 0);

    let c = Command::from_str("\t listimg   ").unwrap();

    assert_eq!(c.name.as_str(), "listimg");
    assert_eq!(c.parameters.len(), 0);

    let c = Command::from_str("createvm, name test, cpus 1, ram 512").unwrap();

    assert_eq!(c.name.as_str(), "createvm");
    assert_eq!(c.parameters.len(), 3);

    assert_eq!(c.parameters[0].key.as_str(), "name");
    assert_eq!(c.parameters[0].value.as_str(), "test");

    assert_eq!(c.parameters[1].key.as_str(), "cpus");
    assert_eq!(c.parameters[1].value.as_str(), "1");

    assert_eq!(c.parameters[2].key.as_str(), "ram");
    assert_eq!(c.parameters[2].value.as_str(), "512");
}

#[test]
#[should_panic]
fn command_from_str_invalid_empty() {
    Command::from_str("").unwrap();
}

#[test]
#[should_panic]
fn command_from_str_invalid_param() {
    Command::from_str("createvm, name").unwrap();
}

#[test]
#[should_panic]
fn tests_command_from_str_invalid_empty() {
    Command::from_str("").unwrap();
}

#[test]
#[should_panic]
fn tests_command_from_str_invalid_param() {
    Command::from_str("createvm, name").unwrap();
}

#[test]
fn command_errors_say_what_is_missing() {
    assert_eq!(Command::from_str("  \t ").unwrap_err().message.as_str(), "Empty command");
    assert_eq!(Command::from_str("createvm, name").unwrap_err().message.as_str(), "Value not found");
    assert_eq!(Command::from_str("createvm,  , a b").unwrap_err().message.as_str(), "Key not found");
    assert_eq!(Parameter::from_str("").unwrap_err().message.as_str(), "Key not found");
    assert_eq!(Parameter::from_str("key").unwrap_err().message.as_str(), "Value not found");
}

#[test]
fn a_key_that_comes_again_replaces_the_value() {
    let c = Command::from_str("createvm, cpus 1, ram 512, cpus 2").unwrap();
    assert_eq!(c.parameters.len(), 2);
    assert_eq!(c.parameters[0].key.as_str(), "cpus");
    assert_eq!(c.parameters[0].value.as_str(), "2");
    assert_eq!(c.parameters[1].key.as_str(), "ram");
    let c = Command::from_str("a,b").unwrap();
    assert_eq!(c.name.as_str(), "a,b");
    let p = Parameter::from_str("key2\nvalue2").unwrap();
    assert_eq!(p.value.as_str(), "value2");
}
