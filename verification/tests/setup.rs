use dao_chain_client::setup::failure_text;

#[test]
fn the_text_of_a_failure_is_kept() {
    let text = |text: &str| Some(text.to_string());
    assert_eq!(
        failure_text(None, text("ambiguous transaction outcome")),
        "ambiguous transaction outcome"
    );
    assert_eq!(failure_text(text("owned"), None), "owned");
    assert_eq!(failure_text(text("owned"), text("borrowed")), "owned");
    assert_eq!(failure_text(None, None), "non-string setup panic");
}
