use xquery::xqts::catalog::catalog_jobs;
use xquery::xqts::codegen::{build_prefix, check_result, check_result_value, cleanup, fn_name, folder, string_cleanup};
use xquery::xqts::generator::{generate_test_module, output_file_name};
use xquery::xqts::listing::{module_listing, sort_texts};
use xquery::xqts::model::EnvTable;

#[test]
fn function_names_are_made_safe() {
    assert_eq!(fn_name("T-1".to_string()), "t_dash_1");
    assert_eq!(fn_name("fn-abs.1%+:x".to_string()), "fn_dash_abs_dot_1_pc_plus_dots_x");
    assert_eq!(fn_name("A__B".to_string()), "a_b");
}

#[test]
fn folders_end_with_a_slash() {
    assert_eq!(folder("prod/abs.xml".to_string()), "prod/");
    assert_eq!(folder("a/b/c.xml".to_string()), "a/b/");
    assert_eq!(folder("c.xml".to_string()), "/");
}

#[test]
fn generated_checks() {
    assert_eq!(cleanup("a\"b\\c".to_string()), "a\\\"b\\\\c");
    assert_eq!(build_prefix(false), "        ");
    assert_eq!(build_prefix(true), "            || bool_");
    assert_eq!(check_result("check_assert_true".to_string(), false), "        check_assert_true(&result);\n");
    assert_eq!(check_result("check_assert_true".to_string(), true), "            || bool_check_assert_true(&result)\n");
    assert_eq!(
        check_result_value("check_assert_eq".to_string(), "\"a\"".to_string(), false),
        "        check_assert_eq(&result, \"\\\"a\\\"\");\n"
    );
}

#[test]
fn output_files_are_mangled() {
    assert_eq!(output_file_name("prod/abs.xml").unwrap(), "prod/abs.rs");
    assert_eq!(output_file_name("fn/true.xml").unwrap(), "fun/bool_true.rs");
    assert_eq!(output_file_name("Op/Some-Thing.xml").unwrap(), "op/some_thing.rs");
    assert!(output_file_name("abc").is_none());
}

#[test]
fn a_test_set_becomes_a_module() {
    let data = "<test-set name=\"abs\"><test-case name=\"T-1\"><test>1+1</test><result><assert-true/></result></test-case></test-set>";
    let (file, text) = generate_test_module("prod/abs.xml", data, EnvTable::new()).unwrap();
    assert_eq!(file, "prod/abs.rs");
    assert_eq!(
        text,
        "#[cfg(test)]\nmod tests {\n    use crate::tests::*;\n\n    #[test]\n    fn t_dash_1() {\n        let sources: Vec<(&str,&str)> = vec![];\n        let result = eval(sources,\"1+1\");\n\n        check_assert_true(&result);\n    }\n\n}\n"
    );
    assert!(generate_test_module("prod/abs.xml", "<test-set name></test-set>", EnvTable::new()).is_none());
}

#[test]
fn the_catalog_lists_test_sets() {
    let data = "<catalog><test-set name=\"abs\" file=\"prod/abs.xml\"/><test-set name=\"min\" file=\"fn/min.xml\"/></catalog>";
    let jobs = catalog_jobs(data).unwrap();
    assert_eq!(jobs.len(), 2);
    assert_eq!(jobs[0].name, "abs");
    assert_eq!(jobs[0].file, "prod/abs.xml");
    assert_eq!(jobs[1].file, "fn/min.xml");
    assert!(catalog_jobs("<catalog x></catalog>").is_none());
}

#[test]
fn texts_are_sorted() {
    let v = vec!["b".to_string(), "a".to_string(), "ab".to_string()];
    assert_eq!(sort_texts(&v), vec!["a".to_string(), "ab".to_string(), "b".to_string()]);
}

#[test]
fn module_listing_groups_by_folder() {
    let files = vec!["prod/abs.rs".to_string(), "fun/min.rs".to_string()];
    let (mods, _root) = module_listing(&files);
    assert!(!mods.is_empty());
}

#[test]
fn character_data_is_unescaped_and_decoded() {
    assert_eq!(string_cleanup(b"a &lt; b &amp;&amp; c").unwrap(), "a < b && c");
    assert_eq!(string_cleanup(b"line\r\nnext").unwrap(), "line\n\nnext");
    assert_eq!(string_cleanup("caf\u{e9}".as_bytes()).unwrap(), "caf\u{e9}");
    assert!(string_cleanup(b"&unknown;").is_none());
    assert!(string_cleanup(&[0xff, 0xfe]).is_none());
}
