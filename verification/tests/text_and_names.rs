use ponev_jni::decimal::{format_i32, parse_i32};
use ponev_jni::jni_export::{gets_local_lifetime, greeting, jni_function_name, lifetime_plan, JniArg, JniArgType};
use ponev_jni::text::str_eq;

#[test]
fn parse_accepts_signed_decimal() {
    assert_eq!(parse_i32("42"), Some(42));
    assert_eq!(parse_i32("+7"), Some(7));
    assert_eq!(parse_i32("-15"), Some(-15));
    assert_eq!(parse_i32("007"), Some(7));
    assert_eq!(parse_i32("2147483647"), Some(i32::MAX));
    assert_eq!(parse_i32("-2147483648"), Some(i32::MIN));
}

#[test]
fn parse_rejects_what_std_rejects() {
    for text in ["", "-", "+", "12a", " 1", "1 ", "2147483648", "-2147483649", "99999999999", "--1", "1.5"] {
        assert_eq!(parse_i32(text), None, "{text:?}");
        assert!(text.parse::<i32>().is_err());
    }
}

#[test]
fn parse_agrees_with_std_on_samples() {
    for text in ["0", "-0", "+0", "65535", "-32768", "2147483647", "-2147483648", "000123"] {
        assert_eq!(parse_i32(text), text.parse::<i32>().ok(), "{text:?}");
    }
}

#[test]
fn format_matches_display() {
    for n in [0, 1, 9, 10, 12345, -1, -10, -987654, i32::MAX, i32::MIN] {
        assert_eq!(format_i32(n), n.to_string());
    }
}

#[test]
fn format_then_parse_gives_back_the_number() {
    for n in [0, 7, -7, 1000, 0x300D, i32::MAX, i32::MIN, -2147483647] {
        assert_eq!(parse_i32(&format_i32(n)), Some(n));
    }
}

#[test]
fn jni_name_replaces_dots() {
    assert_eq!(
        jni_function_name("me.andreasmelone.ponevlauncher.jaba.JREUtils.dlopen"),
        "Java_me_andreasmelone_ponevlauncher_jaba_JREUtils_dlopen"
    );
    assert_eq!(jni_function_name(""), "Java_");
    assert_eq!(jni_function_name("a..b."), "Java_a__b_");
    assert_eq!(jni_function_name("nodots_here"), "Java_nodots_here");
}

#[test]
fn jni_name_has_no_dot_and_keeps_length() {
    let path = "me.andreasmelone.ponevlauncher.JNI.sayHello";
    let name = jni_function_name(path);
    assert!(!name.contains('.'));
    assert!(name.starts_with("Java_"));
    assert_eq!(name.chars().count(), path.chars().count() + 5);
}

#[test]
fn local_lifetime_only_for_j_types() {
    let seg = |s: &str| JniArg::Typed(JniArgType::Path { last_segment: Some(s.to_string()) });
    assert!(gets_local_lifetime(&seg("JNIEnv")));
    assert!(gets_local_lifetime(&seg("JClass")));
    assert!(gets_local_lifetime(&seg("JString")));
    assert!(!gets_local_lifetime(&seg("jclass")));
    assert!(!gets_local_lifetime(&seg("i32")));
    assert!(!gets_local_lifetime(&seg("")));
    assert!(!gets_local_lifetime(&JniArg::Typed(JniArgType::Path { last_segment: None })));
    assert!(!gets_local_lifetime(&JniArg::Typed(JniArgType::Other)));
    assert!(!gets_local_lifetime(&JniArg::Receiver));
}

#[test]
fn lifetime_plan_follows_parameters() {
    let args = vec![
        JniArg::Typed(JniArgType::Path { last_segment: Some("JNIEnv".to_string()) }),
        JniArg::Typed(JniArgType::Path { last_segment: Some("jclass".to_string()) }),
        JniArg::Typed(JniArgType::Other),
        JniArg::Typed(JniArgType::Path { last_segment: Some("JObject".to_string()) }),
    ];
    assert_eq!(lifetime_plan(&args), vec![true, false, false, true]);
    assert_eq!(lifetime_plan(&Vec::new()), Vec::<bool>::new());
}

#[test]
fn greeting_text() {
    assert_eq!(greeting("world"), "hello, world!");
    assert_eq!(greeting(""), "hello, !");
}

#[test]
fn str_eq_compares_characters() {
    assert!(str_eq("true", "true"));
    assert!(!str_eq("true", "True"));
    assert!(!str_eq("true", "true "));
    assert!(str_eq("", ""));
}
