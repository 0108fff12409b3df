use finch_gen::ident::{decode, Decoded, Role};
use finch_gen::naming::{header_file_name, package_namespace, uppercase_first};
use finch_gen::manifest::{measure_nesting, MAX_NESTING};
use finch_gen::package::{get_package_name_from_cargo_toml, package_name_from_document};
use finch_gen::text::{split, starts_with, str_eq};
use finch_gen::{get_package_name, to_camel_case, to_pascal_case, FinchError};

#[test]
fn split_divides_at_each_delimiter() {
    assert_eq!(split("a___b___c", "___"), vec!["a", "b", "c"]);
    assert_eq!(split("___finch_bindgen___pkg", "___"), vec!["", "finch_bindgen", "pkg"]);
    assert_eq!(split("a______b", "___"), vec!["a", "", "b"]);
    assert_eq!(split("a____b", "___"), vec!["a", "_b"]);
    assert_eq!(split("abc", "___"), vec!["abc"]);
    assert_eq!(split("", "___"), vec![""]);
    assert_eq!(split("ab___", "___"), vec!["ab", ""]);
    assert_eq!(split("a__b", "___"), vec!["a__b"]);
    assert_eq!(split("abc", ""), vec!["abc"]);
    assert_eq!(split("é___ü", "___"), vec!["é", "ü"]);
}

#[test]
fn split_agrees_with_std() {
    for s in ["", "_", "__", "___", "____", "a_b", "x___y____z_____", "______", "_a___b_"] {
        for d in ["_", "___", "__"] {
            let expected: Vec<String> = s.split(d).map(|p| p.to_string()).collect();
            assert_eq!(split(s, d), expected);
        }
    }
}

#[test]
fn prefix_and_equality() {
    assert!(starts_with("___finch_bindgen___x", "___finch_bindgen"));
    assert!(starts_with("abc", ""));
    assert!(!starts_with("__finch_bindgen", "___finch_bindgen"));
    assert!(!starts_with("ab", "abc"));
    assert!(str_eq("class", "class"));
    assert!(!str_eq("class", "classes"));
    assert!(!str_eq("classes", "class"));
    assert!(!str_eq("class", "clasz"));
}

#[test]
fn decode_reads_each_member() {
    let d = decode("___finch_bindgen___pkg___class___Widget___method___spin", "pkg");
    assert!(matches!(&d, Decoded::Class { class_name, role: Role::Method { name, consume: false } }
        if class_name == "Widget" && name == "spin"));
    let d = decode("___finch_bindgen___pkg___class___Widget___method_consume___finish", "pkg");
    assert!(matches!(&d, Decoded::Class { role: Role::Method { name, consume: true }, .. }
        if name == "finish"));
    let d = decode("___finch_bindgen___pkg___class___Widget___drop", "pkg");
    assert!(matches!(&d, Decoded::Class { role: Role::Drop, .. }));
    let d = decode("___finch_bindgen___pkg___class___Widget___static___new", "pkg");
    assert!(matches!(&d, Decoded::Class { role: Role::Constructor, .. }));
    let d = decode("___finch_bindgen___pkg___class___Widget___static___newer", "pkg");
    assert!(matches!(&d, Decoded::Class { role: Role::Static { name }, .. } if name == "newer"));
    let d = decode("___finch_bindgen___pkg___class___Widget___getter___count", "pkg");
    assert!(matches!(&d, Decoded::Class { role: Role::Getter { name }, .. } if name == "count"));
    let d = decode("___finch_bindgen___pkg___class___Widget___setter___count", "pkg");
    assert!(matches!(&d, Decoded::Class { role: Role::Setter { name }, .. } if name == "count"));
    let d = decode("___finch_bindgen___pkg___class___Widget___other___count", "pkg");
    assert!(matches!(&d, Decoded::Class { role: Role::Unknown { keyword }, .. }
        if keyword == "other"));
    let d = decode("___finch_bindgen___pkg___class___Widget", "pkg");
    assert!(matches!(&d, Decoded::Class { class_name, role: Role::Incomplete }
        if class_name == "Widget"));
    let d = decode("___finch_bindgen___pkg___class___Widget___getter", "pkg");
    assert!(matches!(&d, Decoded::Class { role: Role::Incomplete, .. }));
}

#[test]
fn decode_names_what_is_wrong() {
    assert!(matches!(decode("widget_new", "pkg"), Decoded::Foreign));
    assert!(matches!(decode("__finch_bindgen___pkg___class___W", "pkg"), Decoded::Foreign));
    assert!(matches!(decode("___finch_bindgen", "pkg"), Decoded::Malformed));
    assert!(matches!(decode("___finch_bindgen___pkg", "pkg"), Decoded::Malformed));
    assert!(matches!(decode("___finch_bindgen___pkg___class", "pkg"), Decoded::Malformed));
    let d = decode("___finch_bindgen___other_pkg___class___Widget", "pkg");
    assert!(matches!(&d, Decoded::PackageMismatch { found } if found == "other_pkg"));
    let d = decode("___finch_bindgen___pkg___enum___Colour", "pkg");
    assert!(matches!(&d, Decoded::UnknownScope { scope } if scope == "enum"));
    let d = decode("___finch_bindgen___other", "pkg");
    assert!(matches!(&d, Decoded::PackageMismatch { found } if found == "other"));
}

#[test]
fn decode_gives_the_same_value_each_time() {
    let name = "___finch_bindgen___pkg___class___Widget___static___make";
    let first = format!("{:?}", decode(name, "pkg"));
    let second = format!("{:?}", decode(name, "pkg"));
    assert_eq!(first, second);
}

#[test]
fn camel_and_pascal_case() {
    assert_eq!(to_camel_case("foo_bar_baz"), "fooBarBaz");
    assert_eq!(to_pascal_case("foo_bar_baz"), "FooBarBaz");
    assert_eq!(to_camel_case("foo"), "foo");
    assert_eq!(to_pascal_case("foo"), "Foo");
    assert_eq!(to_camel_case(""), "");
    assert_eq!(to_pascal_case(""), "");
    assert_eq!(to_camel_case("_foo__bar_"), "FooBar");
    assert_eq!(to_pascal_case("get_x"), "GetX");
    assert_eq!(to_pascal_case("ßeta_émile"), "SSetaÉmile");
    assert_eq!(uppercase_first("widget"), "Widget");
    assert_eq!(uppercase_first("Widget"), "Widget");
    assert_eq!(uppercase_first("9lives"), "9lives");
}

#[test]
fn package_name_from_manifest() {
    let text = "[package]\nname = \"my-lib\"\nversion = \"0.1.0\"\n";
    assert_eq!(get_package_name_from_cargo_toml(text).unwrap(), "my-lib");
    assert_eq!(get_package_name(true, Some("from_env".to_string()), text).unwrap(), "my-lib");
    assert_eq!(get_package_name(false, Some("from_env".to_string()), text).unwrap(), "from_env");
    assert_eq!(get_package_name(false, None, text).unwrap(), "my-lib");
    assert_eq!(get_package_name(false, Some("from_env".to_string()), "not toml [").unwrap(), "from_env");
}

#[test]
fn package_name_failures() {
    let text = "this is [ not toml";
    let err = get_package_name_from_cargo_toml(text).unwrap_err();
    let reason = text.parse::<toml::Value>().unwrap_err().to_string();
    assert!(!reason.is_empty());
    assert!(matches!(&err, FinchError::ManifestSyntax { reason: r } if *r == reason));
    assert_eq!(err.message(), reason);
    let err = get_package_name_from_cargo_toml("[dependencies]\nlog = \"0.4\"\n").unwrap_err();
    assert!(matches!(err, FinchError::NoPackageTable));
    assert_eq!(err.message(), "Cargo.toml does not have [package] table");
    let err = get_package_name_from_cargo_toml("package = 3\n").unwrap_err();
    assert!(matches!(err, FinchError::NoPackageTable));
    let err = get_package_name_from_cargo_toml("[package]\nversion = \"1\"\n").unwrap_err();
    assert!(matches!(err, FinchError::NoPackageName));
    assert_eq!(err.message(), "Cargo.toml does not have package name string");
    let err = get_package_name_from_cargo_toml("[package]\nname = 7\n").unwrap_err();
    assert!(matches!(err, FinchError::NoPackageName));
    let err = get_package_name(true, Some("from_env".to_string()), "").unwrap_err();
    assert!(matches!(err, FinchError::NoPackageTable));
    let err = package_name_from_document(&toml::Value::Integer(1)).unwrap_err();
    assert!(matches!(err, FinchError::NoRootTable));
    assert_eq!(err.message(), "Cargo.toml does not have root table element");
}

#[test]
fn nesting_is_measured_as_the_text_is_read() {
    assert_eq!(MAX_NESTING, 200);
    assert_eq!(measure_nesting(""), 0);
    assert_eq!(measure_nesting("name = 1"), 0);
    assert_eq!(measure_nesting("[package]\nversion = \"0.1.0\"\nx = { y = [1] }"), 2);
    assert_eq!(measure_nesting("a = [[1], [2], [[3]]]"), 3);
    assert_eq!(measure_nesting("a.b.c = 1\nd.e = 2\n"), 2);
    assert_eq!(measure_nesting("[a.b.c]\nd = 1\n[[e]]\n"), 3);
    assert_eq!(measure_nesting("a.b = [\n  { c.d = [\n    { e.f = 1 } ] } ]\n"), 7);
    assert_eq!(measure_nesting("a = [\n1,\n2,\n]\nb.c = 1"), 1);
}

#[test]
fn comments_and_strings_do_not_nest() {
    assert_eq!(measure_nesting("# [[[[ {{{{ ....\na = 1"), 0);
    assert_eq!(measure_nesting("a = 1 # it's [[[\nb = [2]"), 1);
    assert_eq!(measure_nesting("a = \"[[[ {{{ ... # x\"\nb = 1"), 0);
    assert_eq!(measure_nesting("a = '[[[ \\'\nb = [[1]]"), 2);
    assert_eq!(measure_nesting("a = \"x \\\" [[[ \\\\\"\nb = [1]"), 1);
    assert_eq!(measure_nesting("a = \"\"\nb = [[1]]"), 2);
    assert_eq!(measure_nesting("a = \"\"\"\n[[[ \"\" ]]] \\\"\"\" {{{\n\"\"\"\nb = [1]"), 1);
    assert_eq!(measure_nesting("a = '''\n[[[ '' ''\n'''''\nb = {c = [1]}"), 2);
    assert_eq!(measure_nesting("\"a.b\".c = 1"), 1);
    assert_eq!(measure_nesting("a = \"unclosed [[[\nb = [1]"), 1);
    for text in [
        "a = 1 # it's [[[\nb = [2]",
        "a = '[[[ \\'\nb = [[1]]",
        "a = \"x \\\" [[[ \\\\\"\nb = [1]",
        "a = \"\"\"\n[[[ \"\" ]]] \\\"\"\" {{{\n\"\"\"\nb = [1]",
        "a = '''\n[[[ '' ''\n'''''\nb = {c = [1]}",
        "\"a.b\".c = 1",
    ] {
        assert!(text.parse::<toml::Value>().is_ok(), "{}", text);
    }
}

#[test]
fn ordinary_manifests_are_read() {
    let mut text =
        String::from("[package]\nname = \"big-one\"\nversion = \"0.1.0\"\n\n[dependencies]\n");
    for i in 0..400 {
        text.push_str(&format!(
            "dep{} = {{ version = \"1.0.{}\", features = [\"derive\", \"std\"] }} # see https://example.org/a.b.c\n",
            i, i
        ));
    }
    text.push_str("\n[features]\ndefault = [\n  \"a\",\n  \"b\",\n]\n[target.'cfg(unix)'.dependencies]\nlibc = \"0.2\"\n");
    assert_eq!(measure_nesting(&text), 3);
    assert_eq!(get_package_name_from_cargo_toml(&text).unwrap(), "big-one");
    let dotted_comment = format!("[package]\nname = \"p\"\n# {}", ".".repeat(512));
    assert_eq!(measure_nesting(&dotted_comment), 1);
    assert_eq!(get_package_name_from_cargo_toml(&dotted_comment).unwrap(), "p");
    let bracket_string = format!("[package]\nname = \"p\"\nnote = \"{}\"\n", "[{".repeat(500));
    assert_eq!(get_package_name_from_cargo_toml(&bracket_string).unwrap(), "p");
    let floats = format!("[package]\nname = \"f\"\nweights = [{}]\n", "1.5, ".repeat(300));
    assert_eq!(measure_nesting(&floats), 1);
    assert_eq!(get_package_name_from_cargo_toml(&floats).unwrap(), "f");
    let siblings = format!(
        "[package]\nname = \"s\"\nt = {{ {}z = 0.5 }}\n",
        (0..300).map(|i| format!("a{}.b.c = 1.5, ", i)).collect::<String>()
    );
    assert_eq!(measure_nesting(&siblings), 3);
    assert_eq!(get_package_name_from_cargo_toml(&siblings).unwrap(), "s");
    let dotted_lines = format!(
        "{}[package]\nname = \"d\"\n",
        (0..300).map(|i| format!("k{}.a.b = 2.5 # x.y.z\n", i)).collect::<String>()
    );
    assert_eq!(measure_nesting(&dotted_lines), 2);
    assert_eq!(get_package_name_from_cargo_toml(&dotted_lines).unwrap(), "d");
}

#[test]
fn manifest_at_the_bound_is_parsed() {
    let arrays = format!("a = {}{}", "[".repeat(200), "]".repeat(200));
    assert_eq!(measure_nesting(&arrays), 200);
    let err = get_package_name_from_cargo_toml(&arrays).unwrap_err();
    assert!(matches!(err, FinchError::NoPackageTable));
    let tables = format!("a = {}1{}", "{ b = ".repeat(200), " }".repeat(200));
    assert_eq!(measure_nesting(&tables), 200);
    let err = get_package_name_from_cargo_toml(&tables).unwrap_err();
    assert!(matches!(err, FinchError::NoPackageTable));
    let dotted = format!("a{} = 1", ".a".repeat(200));
    assert_eq!(measure_nesting(&dotted), 200);
    let err = get_package_name_from_cargo_toml(&dotted).unwrap_err();
    assert!(matches!(err, FinchError::NoPackageTable));
    let mixed = format!(
        "[h{}]\nk{} = {}1{}\n",
        ".h".repeat(199),
        ".k".repeat(99),
        "[".repeat(100),
        "]".repeat(100)
    );
    assert_eq!(measure_nesting(&mixed), 200);
    let err = get_package_name_from_cargo_toml(&mixed).unwrap_err();
    assert!(matches!(err, FinchError::NoPackageTable));
    let named =
        format!("x = {}{}\n[package]\nname = \"deep\"\n", "[".repeat(200), "]".repeat(200));
    assert_eq!(get_package_name_from_cargo_toml(&named).unwrap(), "deep");
}

#[test]
fn manifest_beyond_the_bound_is_refused_unread() {
    let arrays = format!("a = {}", "[".repeat(100_000));
    let err = get_package_name_from_cargo_toml(&arrays).unwrap_err();
    assert!(matches!(err, FinchError::ManifestTooNested));
    assert_eq!(err.message(), "Cargo.toml is nested too deeply");
    let just_over =
        format!("[package]\nname = \"p\"\nx = {}{}\n", "[".repeat(201), "]".repeat(201));
    assert_eq!(measure_nesting(&just_over), 201);
    let err = get_package_name_from_cargo_toml(&just_over).unwrap_err();
    assert!(matches!(err, FinchError::ManifestTooNested));
    let dotted = format!("a{} = 1", ".a".repeat(100_000));
    let err = get_package_name_from_cargo_toml(&dotted).unwrap_err();
    assert!(matches!(err, FinchError::ManifestTooNested));
    let err = get_package_name(true, None, &arrays).unwrap_err();
    assert!(matches!(err, FinchError::ManifestTooNested));
    assert_eq!(get_package_name(false, Some("env".to_string()), &arrays).unwrap(), "env");
}

#[test]
fn header_name_of_a_package() {
    assert_eq!(package_namespace("my-lib"), "my_lib");
    assert_eq!(package_namespace("a-b--c_d"), "a_b__c_d");
    assert_eq!(package_namespace(""), "");
    assert_eq!(package_namespace("émile-zola"), "émile_zola");
    assert_eq!(header_file_name("my-lib"), "my_lib-finch_bindgen.h");
    assert_eq!(header_file_name("plain"), "plain-finch_bindgen.h");
}

#[test]
fn pascal_case_is_capitalized_camel_case() {
    for name in ["foo_bar_baz", "foo", "a__b", "x_", "ünder_score", "get_x_9"] {
        assert_eq!(uppercase_first(&to_camel_case(name)), to_pascal_case(name));
    }
    for name in ["_foo_bar", "__x", "_", "", "_9_lives"] {
        assert_eq!(to_camel_case(name), to_pascal_case(name));
        assert_eq!(uppercase_first(&to_camel_case(name)), to_pascal_case(name));
    }
}

fn depth_of(value: &toml::Value) -> usize {
    match value {
        toml::Value::Array(items) => 1 + items.iter().map(depth_of).max().unwrap_or(0),
        toml::Value::Table(table) => 1 + table.values().map(depth_of).max().unwrap_or(0),
        _ => 0,
    }
}

#[test]
fn measure_bounds_the_depth_of_the_document() {
    let texts = [
        "a = 1".to_string(),
        "a.b.c = 1".to_string(),
        "[a.b.c]\nd.e.f = [[[1]]]".to_string(),
        "[[a.b]]\nc = { d.e = { f.g = [ { h.i = 1 } ] } }".to_string(),
        "a.b = [\n  { c.d = [\n    { e.f = 1.5 } ] } ]\n".to_string(),
        "a = \"]]]\"\nb = [[\"[\", ']']]\n[c.\"d.e\".f]\ng = 1".to_string(),
        "[x]\ny = [\n [1, 2], # ]]]\n [3, [4, [5]]],\n]\n[z.z.z.z.z]\nq.q = 1".to_string(),
        format!("[h{}]\nk{} = {}1{}", ".h".repeat(20), ".k".repeat(10), "[".repeat(10), "]".repeat(10)),
    ];
    for text in texts.iter() {
        let value = text.parse::<toml::Value>().unwrap();
        assert!(depth_of(&value) <= 2 * measure_nesting(text) + 1, "{}", text);
    }
}

fn next_random(seed: &mut u64) -> u64 {
    *seed = seed.wrapping_mul(6364136223846793005).wrapping_add(1442695040888963407);
    *seed >> 33
}

fn random_value(seed: &mut u64, room: u32) -> String {
    let pick = next_random(seed) % if room == 0 { 6 } else { 9 };
    match pick {
        0 => "7".to_string(),
        1 => "1.5".to_string(),
        2 => "\"a [ { . # ' \\\" ] } \\\\\"".to_string(),
        3 => "'b [ { . # \" \\'".to_string(),
        4 => "\"\"\"\nc \"\" [ { ' # \\\" ] \n\"\"\"\"".to_string(),
        5 => "'''\nd '' ] } \" # \\\n'''''".to_string(),
        6 => format!(
            "[\n  {}, # ]]] \"\n  {},\n]",
            random_value(seed, room - 1),
            random_value(seed, room - 1)
        ),
        7 => format!("[{}]", random_value(seed, room - 1)),
        _ => format!(
            "{{ k = {}, \"q.r\".s.'t.u' = {} }}",
            random_value(seed, room - 1),
            random_value(seed, room - 1)
        ),
    }
}

#[test]
fn measure_bounds_the_depth_of_generated_documents() {
    let mut seed: u64 = 2024;
    for round in 0..300 {
        let mut text = String::new();
        for line in 0..4 {
            if next_random(&mut seed) % 3 == 0 {
                text.push_str(&format!("[t{}.'x.y'.z{}] # [[[ '\n", round, line));
            }
            text.push_str(&format!("v{}.w = {} # }}}} \"\n", line, random_value(&mut seed, 4)));
        }
        let value = text.parse::<toml::Value>();
        assert!(value.is_ok(), "{}", text);
        let measured = measure_nesting(&text);
        assert!(depth_of(&value.unwrap()) <= 2 * measured + 1, "{}", text);
        assert!(measured <= 2 + 2 * 4 + 4, "{}", text);
    }
}
