use qubit_config::scalar_text::scalar_to_string;
use qubit_config::scalar_text::JsonScalar;
use qubit_config::ReadPolicy;

fn read(value: JsonScalar) -> Result<String, Option<String>> {
    scalar_to_string("app.value", &value, &ReadPolicy::default())
        .map_err(|error| error.diagnostic().map(|text| text.to_string()))
}

#[test]
fn strings_are_read_as_they_are() {
    assert_eq!(read(JsonScalar::String("hello".to_string())), Ok("hello".to_string()));
}

#[test]
fn booleans_and_integers_are_read_as_their_text() {
    assert_eq!(read(JsonScalar::Bool(true)), Ok("true".to_string()));
    assert_eq!(read(JsonScalar::Int64(-3)), Ok("-3".to_string()));
    assert_eq!(read(JsonScalar::UInt64(u64::MAX)), Ok("18446744073709551615".to_string()));
}

#[test]
fn null_arrays_and_objects_are_of_the_wrong_kind() {
    assert_eq!(
        read(JsonScalar::Null),
        Err(Some("invalid type: unit value, expected a string-compatible scalar".to_string()))
    );
    assert_eq!(
        read(JsonScalar::Array),
        Err(Some("invalid type: sequence, expected a string-compatible scalar".to_string()))
    );
    assert_eq!(
        read(JsonScalar::Object),
        Err(Some("invalid type: map, expected a string-compatible scalar".to_string()))
    );
}
