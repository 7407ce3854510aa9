use postprocessing::error::{Fault, ProcessingError};
use postprocessing::fuzzers::{Fuzzer, SchemathesisKind};
use postprocessing::search::{
    as_pattern, compile, compile_glob, create_pattern, positions, read_runs, select,
};

fn texts(items: &[&str]) -> Vec<String> {
    items.iter().map(|item| item.to_string()).collect()
}

#[test]
fn alternation_of_nothing_is_a_star() {
    assert_eq!(as_pattern(&Vec::new()), "*");
}

#[test]
fn alternation_of_one_item_is_the_item() {
    assert_eq!(as_pattern(&texts(&["httpbin"])), "httpbin");
}

#[test]
fn alternation_of_several_items_is_braced() {
    assert_eq!(as_pattern(&texts(&["1", "2"])), "{1,2}");
    assert_eq!(as_pattern(&texts(&["a", "b", "c", "d"])), "{a,b,c,d}");
}

#[test]
fn pattern_names_directory_engine_target_and_index() {
    assert_eq!(create_pattern(Some("/data/runs"), &Vec::new(), &Vec::new(), &Vec::new()), Ok("/data/runs/*-*-*".to_string()));
    assert_eq!(
        create_pattern(
            Some("artifacts"),
            &vec![Fuzzer::Cats, Fuzzer::Schemathesis(SchemathesisKind::AllChecks)],
            &texts(&["httpbin:Default"]),
            &texts(&["1", "2", "3"]),
        ),
        Ok("artifacts/{cats,schemathesis:AllChecks}-httpbin:Default-{1,2,3}".to_string())
    );
}

#[test]
fn directory_without_a_name_is_refused() {
    assert_eq!(
        create_pattern(None, &Vec::new(), &Vec::new(), &Vec::new()),
        Err(ProcessingError::InvalidDirectoryName)
    );
    assert!(matches!(
        compile_glob(None, &Vec::new(), &Vec::new(), &Vec::new()),
        Err(ProcessingError::InvalidDirectoryName)
    ));
    assert_eq!(
        read_runs(None, &Vec::new(), &Vec::new(), &Vec::new(), &texts(&["a-b-1"])),
        Err(ProcessingError::InvalidDirectoryName)
    );
}

#[test]
fn malformed_glob_is_refused() {
    assert!(matches!(compile("runs/{a,b"), Err(ProcessingError::Glob(_))));
    assert!(compile("runs/{a,b}").is_ok());
    assert_eq!(
        read_runs(Some("/data"), &Vec::new(), &texts(&["{x"]), &Vec::new(), &texts(&["/data/a-b-1"]))
            .map_err(|e| e.kind()),
        Err(Fault::Glob)
    );
    match compile("runs/[z-a]") {
        Err(error) => {
            assert_eq!(error.kind(), Fault::Glob);
            assert!(error.cause_text().unwrap().contains("invalid range"));
            assert!(error.message().starts_with("the selection pattern is not a valid glob: "));
        }
        Ok(_) => panic!("the range is invalid"),
    }
}

#[test]
fn glob_that_cannot_be_compiled_is_refused() {
    let nested = format!("{}a{}", "{".repeat(300), "}".repeat(300));
    assert!(matches!(compile(&nested), Err(ProcessingError::Glob(_))));
    let prefixed = format!("runs/{}", nested);
    assert_eq!(
        read_runs(Some("/data"), &Vec::new(), &vec![prefixed], &Vec::new(), &texts(&["/data/a-b-1"]))
            .map_err(|e| e.kind()),
        Err(Fault::Glob)
    );
    let shallow = format!("{}a{}", "{".repeat(20), "}".repeat(20));
    let matcher = compile(&shallow).unwrap();
    assert_eq!(select(&matcher, &texts(&["a", "b"])), texts(&["a"]));
}

#[test]
fn glob_with_too_many_braces_is_refused() {
    let deep = format!("{}a{}", "{".repeat(30000), "}".repeat(30000));
    match compile(&deep) {
        Err(error) => assert_eq!(error, ProcessingError::Glob("the pattern has too many braces".to_string())),
        Ok(_) => panic!("the pattern is nested too deep"),
    }
    let many = "{a,b}".repeat(251);
    assert!(matches!(compile(&many), Err(ProcessingError::Glob(_))));
    let most = "{a,b}".repeat(250);
    let matcher = compile(&most).unwrap();
    assert_eq!(select(&matcher, &vec!["ab".repeat(125), "c".repeat(250)]), vec!["ab".repeat(125)]);
    let flat = format!("{{{}}}", vec!["a"; 30000].join(","));
    assert!(compile(&flat).is_ok());
}

#[test]
fn glob_that_is_too_long_is_refused() {
    let long = "a".repeat(65537);
    assert!(matches!(compile(&long), Err(ProcessingError::Glob(_))));
    let longest = "a".repeat(65536);
    let matcher = compile(&longest).unwrap();
    assert_eq!(matcher.source(), longest);
    assert_eq!(select(&matcher, &vec![longest.clone(), long]), vec![longest]);
}

#[test]
fn positions_are_those_of_the_selected_entries() {
    let matcher = compile("*.js").unwrap();
    let paths = texts(&["b.js", "a.txt", "a.js", "c"]);
    assert_eq!(positions(&matcher, &paths), vec![0, 2]);
    assert_eq!(positions(&matcher, &Vec::new()), Vec::<usize>::new());
    let kept: Vec<String> = positions(&matcher, &paths).into_iter().map(|i| paths[i].clone()).collect();
    assert_eq!(kept, select(&matcher, &paths));
}

fn entries() -> Vec<String> {
    texts(&[
        "/data/cats-httpbin:Default-1",
        "/data/cats-httpbin:Default-2",
        "/data/cats-gitlab:Linked-1",
        "/data/restler-httpbin:Default-1",
        "/data/schemathesis:Default-httpbin:Default-1",
        "/data/notes.txt",
        "/other/cats-httpbin:Default-1",
    ])
}

#[test]
fn empty_selection_matches_every_run() {
    assert_eq!(
        read_runs(Some("/data"), &Vec::new(), &Vec::new(), &Vec::new(), &entries()),
        Ok(texts(&[
            "/data/cats-httpbin:Default-1",
            "/data/cats-httpbin:Default-2",
            "/data/cats-gitlab:Linked-1",
            "/data/restler-httpbin:Default-1",
            "/data/schemathesis:Default-httpbin:Default-1",
        ]))
    );
}

#[test]
fn single_selection_matches_exactly() {
    assert_eq!(
        read_runs(Some("/data"), &vec![Fuzzer::Cats], &texts(&["httpbin:Default"]), &texts(&["2"]), &entries()),
        Ok(texts(&["/data/cats-httpbin:Default-2"]))
    );
    assert_eq!(
        read_runs(Some("/data"), &vec![Fuzzer::GotSwag], &Vec::new(), &Vec::new(), &entries()),
        Ok(Vec::new())
    );
}

#[test]
fn several_selections_are_alternatives() {
    assert_eq!(
        read_runs(
            Some("/data"),
            &vec![Fuzzer::Cats, Fuzzer::Restler],
            &Vec::new(),
            &texts(&["1"]),
            &entries()
        ),
        Ok(texts(&[
            "/data/cats-httpbin:Default-1",
            "/data/cats-gitlab:Linked-1",
            "/data/restler-httpbin:Default-1",
        ]))
    );
}

#[test]
fn select_keeps_the_order_of_the_entries() {
    let matcher = compile("*.js").unwrap();
    assert_eq!(select(&matcher, &texts(&["b.js", "a.txt", "a.js"])), texts(&["b.js", "a.js"]));
    assert_eq!(select(&matcher, &Vec::new()), Vec::<String>::new());
}
