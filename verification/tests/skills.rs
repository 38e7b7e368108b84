use markdown_spans::skills::RepositoryContextRetriever;

#[test]
fn tool_has_its_name_and_description() {
    let tool = RepositoryContextRetriever;
    assert_eq!(tool.name(), "retrieve_context_from_repository");
    assert_eq!(
        tool.description(),
        "Retrieve relevant content from repository with natural language"
    );
}

#[test]
fn system_prompt_names_the_tool_and_explains_the_queries() {
    let prompt = RepositoryContextRetriever.system_prompt();
    assert!(prompt.starts_with("'retrieve_context_from_repository'\n"));
    assert!(prompt.contains("pass up to 3 queries"));
    assert!(prompt.ends_with("as opposed to questions"));
    assert_eq!(prompt.lines().count(), 5);
}

#[test]
fn queries_are_joined_by_semicolons() {
    let tool = RepositoryContextRetriever;
    assert_eq!(tool.search_query(&vec![]), "");
    assert_eq!(tool.search_query(&vec!["a".to_string()]), "a");
    assert_eq!(
        tool.search_query(&vec!["a b".to_string(), "".to_string(), "c".to_string()]),
        "a b;;c"
    );
}

#[test]
fn snippet_is_fenced_with_the_language_in_lower_case() {
    let tool = RepositoryContextRetriever;
    let mut prompt = String::new();
    tool.push_snippet(&mut prompt, "src/main.rs", Some("Rust"), "fn main() {}");
    assert_eq!(
        prompt,
        "The following is a relevant snippet from file (src/main.rs):\n```rust\nfn main() {}\n```\n"
    );
}

#[test]
fn snippet_without_a_language_has_a_bare_fence() {
    let tool = RepositoryContextRetriever;
    let mut prompt = "x\n".to_string();
    tool.push_snippet(&mut prompt, "notes", None, "hello");
    assert_eq!(
        prompt,
        "x\nThe following is a relevant snippet from file (notes):\n```\nhello\n```\n"
    );
}
