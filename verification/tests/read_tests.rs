use config_file::ConfigFile;
use serde_json::{Number, Value};

fn person_value() -> Value {
    let mut fields = serde_json::Map::new();
    fields.insert("name".to_string(), Value::String("Daniel".to_string()));
    fields.insert("age".to_string(), Value::Number(Number::from(32u8)));
    Value::Object(fields)
}

#[test]
fn it_can_read_a_config_file() {
    // The single candidate path `tests/person.json` exists, and its contents
    // decode; the decoded value wins over any fallback and nothing is written.
    let file_contents = "{\"name\": \"Daniel\", \"age\": 32}";
    let decoded: Option<Value> = serde_json::from_str(file_contents).ok();
    assert!(decoded.is_some());

    let config = ConfigFile::<Value>::new("person.json".to_string())
        .directory("tests".to_string())
        .read(&vec![true], decoded);

    assert!(config.is_ok());

    let config = config.unwrap();

    assert_eq!(config.value["name"].as_str().unwrap(), "Daniel");
    assert_eq!(config.value["age"].as_u64().unwrap(), 32);
    assert!(config.write_to.is_none());
}

#[test]
fn it_uses_default_if_file_doesnt_exist() {
    // No candidate path exists and the create flag is unset: the default is
    // returned and no write is requested.
    let config = ConfigFile::<Value>::new("fake_file.json".to_string())
        .directory("tests".to_string())
        .default(person_value())
        .read(&vec![false], None);

    assert!(config.is_ok());

    let config = config.unwrap();

    assert_eq!(config.value["name"].as_str().unwrap(), "Daniel");
    assert_eq!(config.value["age"].as_u64().unwrap(), 32);
    assert!(config.write_to.is_none());
}

#[test]
fn it_can_write_the_defaults_to_a_file() {
    // No candidate path exists but the create flag is set: the default is
    // returned together with the first directory's path, where its encoded
    // form is to be persisted.
    let config = ConfigFile::<Value>::new("create_file.json".to_string())
        .directory("tests".to_string())
        .create_file_if_not_found()
        .default(person_value())
        .read(&vec![false], None);

    assert!(config.is_ok());

    let config = config.unwrap();

    assert_eq!(config.write_to, Some("tests/create_file.json".to_string()));

    let contents = serde_json::to_string_pretty(&config.value).unwrap();

    assert_eq!(contents, "{\n  \"name\": \"Daniel\",\n  \"age\": 32\n}");

    // What was persisted decodes back to the default that was configured.
    let reread: Value = serde_json::from_str(&contents).unwrap();
    assert_eq!(reread, person_value());
}
