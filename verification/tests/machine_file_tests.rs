use picomeson::machine_file::{MachineFile, MachineValue};

#[test]
fn test_constants_section() {
    let content = r##"
[constants]
toolchain_prefix = '/usr/bin/'
gcc_name = 'gcc'
base_url = 'https://example.com'
url = base_url / '#some_hash'
array = [
    'item1',
    'item2',
    'item3'
] + 'item4'

[binaries]
c = toolchain_prefix / gcc_name # some comment here
cpp = toolchain_prefix / 'g++'
"##;
    let machine_file = MachineFile::parse(content).unwrap();

    assert_eq!(
        machine_file.get("constants", "array"),
        Some(&MachineValue::Array(vec![
            MachineValue::String("item1".to_string()),
            MachineValue::String("item2".to_string()),
            MachineValue::String("item3".to_string()),
            MachineValue::String("item4".to_string()),
        ]))
    );
    assert_eq!(
        machine_file.get("constants", "url"),
        Some(&MachineValue::String("https://example.com/#some_hash".to_string()))
    );
    assert_eq!(
        machine_file.get("binaries", "c"),
        Some(&MachineValue::String("/usr/bin/gcc".to_string()))
    );
    assert_eq!(
        machine_file.get("binaries", "cpp"),
        Some(&MachineValue::String("/usr/bin/g++".to_string()))
    );
}

#[test]
fn test_string_concatenation() {
    let content = r#"
[constants]
prefix = '-D'
foo = 'FOO'

[properties]
c_args = [prefix + foo + '=1', '-DBAR=2']
"#;
    let machine_file = MachineFile::parse(content).unwrap();

    if let Some(MachineValue::Array(arr)) = machine_file.get("properties", "c_args") {
        assert_eq!(arr[0], MachineValue::String("-DFOO=1".to_string()));
    } else {
        panic!("Expected array value");
    }
}

#[test]
fn test_array_concatenation() {
    let content = r#"
[constants]
base_args = ['-O2', '-g']

[properties]
c_args = base_args + ['-DFOO=1']
"#;
    let machine_file = MachineFile::parse(content).unwrap();

    if let Some(MachineValue::Array(arr)) = machine_file.get("properties", "c_args") {
        assert_eq!(arr.len(), 3);
        assert_eq!(arr[0], MachineValue::String("-O2".to_string()));
        assert_eq!(arr[1], MachineValue::String("-g".to_string()));
        assert_eq!(arr[2], MachineValue::String("-DFOO=1".to_string()));
    } else {
        panic!("Expected array value");
    }
}

#[test]
fn test_section_local_variables() {
    let content = r#"
[binaries]
prefix = '/usr/bin/'
c = prefix / 'gcc'
cpp = prefix / 'g++'
"#;
    let machine_file = MachineFile::parse(content).unwrap();

    assert_eq!(
        machine_file.get("binaries", "c"),
        Some(&MachineValue::String("/usr/bin/gcc".to_string()))
    );
}

#[test]
fn test_section_composition() {
    let content = r#"
[constants]
a = 'Foo'
b = a + 'World'

[constants]
a = 'Hello'
"#;
    let machine_file = MachineFile::parse(content).unwrap();

    assert_eq!(
        machine_file.get("constants", "b"),
        Some(&MachineValue::String("HelloWorld".to_string()))
    );
}

#[test]
fn test_section_composition_err() {
    let content = r#"
[constants]
b = a + 'World'

[constants]
a = 'Hello'
"#;
    MachineFile::parse(content).unwrap_err();
}

#[test]
fn test_section_composition_ok() {
    let content = r#"
[constants]
a = 'Hello'

[constants]
b = a + 'World'
"#;
    let machine_file = MachineFile::parse(content).unwrap();

    assert_eq!(
        machine_file.get("constants", "b"),
        Some(&MachineValue::String("HelloWorld".to_string()))
    );
}

#[test]
fn constants_are_seen_from_every_section() {
    let content = "[binaries]\nc = root / 'cc'\n[constants]\nroot = '/opt'\n";
    let machine_file = MachineFile::parse(content).unwrap();
    assert_eq!(
        machine_file.get("binaries", "c"),
        Some(&MachineValue::String("/opt/cc".to_string()))
    );
}

#[test]
fn a_key_of_another_section_is_not_seen() {
    let content = "[a]\nx = 'one'\n[b]\ny = x\n";
    assert!(MachineFile::parse(content).is_err());
}

#[test]
fn values_of_every_kind() {
    let content = "[properties]\nflag = true\ncount = 0x10\nname = 'n'\nlist = ['a'] + ['b'] + 'c'\nfront = 'z' + ['y']\n";
    let machine_file = MachineFile::parse(content).unwrap();
    assert_eq!(machine_file.get("properties", "flag"), Some(&MachineValue::Boolean(true)));
    assert_eq!(machine_file.get("properties", "count"), Some(&MachineValue::Integer(16)));
    assert_eq!(machine_file.get("properties", "name").unwrap().as_string(), Some("n"));
    assert_eq!(machine_file.get("properties", "flag").unwrap().as_string(), None);
    assert_eq!(machine_file.get("properties", "list").unwrap().coerce_string(), "a,b,c");
    assert_eq!(machine_file.get("properties", "front").unwrap().coerce_string(), "z,y");
    assert_eq!(machine_file.get("properties", "count").unwrap().coerce_string(), "16");
    assert_eq!(machine_file.get("properties", "flag").unwrap().coerce_string(), "true");
    assert_eq!(machine_file.get("properties", "missing"), None);
    assert_eq!(machine_file.get("nowhere", "flag"), None);
    assert!(machine_file.section("properties").is_some());
    assert!(machine_file.section("nowhere").is_none());
}

#[test]
fn what_cannot_be_worked_out_is_an_error() {
    assert!(MachineFile::parse("[p]\nx = 1 + 2\n").is_err());
    assert!(MachineFile::parse("[p]\nx = f()\n").is_err());
    assert!(MachineFile::parse("[p]\nx = 'a' * 2\n").is_err());
    assert!(MachineFile::parse("[p]\nx = [\n").is_err());
    assert!(MachineFile::parse("[p]\nx = 1 / 2\n").is_err());
}

#[test]
fn path_joining_keeps_one_separator() {
    let content = "[p]\na = 'x/' / '/y'\nb = 'x' / 'y'\nc = 'x\\\\' / 'y'\n";
    let machine_file = MachineFile::parse(content).unwrap();
    assert_eq!(machine_file.get("p", "a").unwrap().coerce_string(), "x/y");
    assert_eq!(machine_file.get("p", "b").unwrap().coerce_string(), "x/y");
    assert_eq!(machine_file.get("p", "c").unwrap().coerce_string(), "x\\y");
}
