use jty_converter::app::run;
use jty_converter::cli::{Cli, Format};
use jty_converter::converter::Converter;
use jty_converter::reader::Reader;
use jty_converter::writer::Writer;

#[test]
fn test_run_fails() {
    let args = Cli {
        file: "tests/data/json/file.json".to_string(),
        format: Format {
            json: true,
            toml: false,
            yaml: false,
        },
    };

    let result = run(args, true, "{\"foo\":{\"bar\":\"baz\"}}", false);

    assert!(result.is_err());
}

#[test]
fn test_cli_get_output_format() {
    let cli = Cli {
        file: "test.json".to_string(),
        format: Format {
            json: true,
            toml: false,
            yaml: false,
        },
    };
    assert_eq!(cli.get_output_format().unwrap(), "json");

    let cli = Cli {
        file: "test.toml".to_string(),
        format: Format {
            json: false,
            toml: true,
            yaml: false,
        },
    };
    assert_eq!(cli.get_output_format().unwrap(), "toml");

    let cli = Cli {
        file: "test.yaml".to_string(),
        format: Format {
            json: false,
            toml: false,
            yaml: true,
        },
    };
    assert_eq!(cli.get_output_format().unwrap(), "yaml");

    let cli = Cli {
        file: "test.json".to_string(),
        format: Format {
            json: false,
            toml: false,
            yaml: false,
        },
    };
    assert!(cli.get_output_format().is_err());
}

#[test]
fn converter_test_new() {
    let app = Converter::new("test.json", "json");

    assert_eq!(app.file_path, "test.json");
    assert_eq!(app.output_format, "json");
}

#[test]
fn test_convert_fails() {
    let file_path = "tests/data/json/file.json";
    let output_format = "json";
    let app = Converter::new(file_path, output_format);

    let result = app.convert(true, "{\"foo\":{\"bar\":\"baz\"}}", false);

    assert!(result.is_err());
}

#[test]
fn test_reader_new() {
    let reader = Reader::new("test.json");
    assert_eq!(reader.file_path, "test.json");
}

#[test]
fn test_reader_read_json() {
    let reader = Reader::new("tests/data/json/file.json");

    let result = reader.read(true, "{\"foo\":{\"bar\":\"baz\"}}");

    assert!(result.is_ok());

    let data = result.unwrap().to_string();

    let expected = r#"{"foo":{"bar":"baz"}}"#.to_string();

    assert_eq!(data, expected);
}

#[test]
fn test_reader_read_toml() {
    let reader = Reader::new("tests/data/toml/file.toml");

    let result = reader.read(true, "[foo]\nbar = \"baz\"\n");

    assert!(result.is_ok());

    let data = result.unwrap().to_string();

    let expected = r#"{"foo":{"bar":"baz"}}"#.to_string();

    assert_eq!(data, expected);
}

#[test]
fn test_reader_read_yaml() {
    let reader = Reader::new("tests/data/yaml/file.yaml");

    let result = reader.read(true, "foo:\n  bar: baz\n");

    assert!(result.is_ok());

    let data = result.unwrap().to_string();

    let expected = r#"{"foo":{"bar":"baz"}}"#.to_string();

    assert_eq!(data, expected);
}

#[test]
fn test_file_doesnt_exists() {
    let reader = Reader::new("test.txt");

    let result = reader.read(false, "");

    assert!(result.is_err());

    let err = result.err().unwrap().message();

    let expected = "File does not exist: test.txt".to_string();

    assert_eq!(err, expected);
}

#[test]
fn test_unsupported_file_extension() {
    let reader = Reader::new("tests/data/unsupported/file.txt");

    let result = reader.read(true, "some text\n");

    assert!(result.is_err());

    let err = result.err().unwrap().message();

    let expected = "Unsupported file extension".to_string();

    assert_eq!(err, expected);
}

#[test]
fn writer_test_new() {
    let writer = Writer::new("test.json", "json");

    assert_eq!(writer.file_path, "test.json");
    assert_eq!(writer.output_format, "json");
}

#[test]
fn test_file_extension_matches_output_format() {
    let writer = Writer::new("test.json", "json");

    let result = writer.file_extension_matches_output_format("json");

    assert!(result.is_err());
}

#[test]
fn test_convert_json() {
    let writer = Writer::new("test.json", "json");

    let data = serde_json::Value::from(r#"{"foo": {"bar": "baz"}}"#);

    let result = writer.convert(data);

    assert!(result.is_ok());

    let res = result.unwrap();

    assert_eq!(res, r#""{\"foo\": {\"bar\": \"baz\"}}""#);
}

#[test]
fn test_convert_yaml() {
    let writer = Writer::new("test.json", "yaml");

    let data = serde_json::Value::from(
        r#"foo:
          bar: baz"#,
    );

    let result = writer.convert(data);

    assert!(result.is_ok());

    let res = result.unwrap();

    assert_eq!(res, "|-\n  foo:\n            bar: baz\n");
}
