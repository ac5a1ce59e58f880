use nokta_shell::config::{ConfigStore, ConfigValue};
use nokta_shell::resolver::accept_prompt_reply;
use nokta_shell::url_text::normalize_url;

#[test]
fn set_then_get_strips_trailing_slash() {
    let mut store = ConfigStore::new();
    store.set(String::from("https://chat.example.com/"));
    assert_eq!(store.get(), Some(String::from("https://chat.example.com")));
    store.set(String::from("https://chat.example.com///"));
    assert_eq!(store.get(), Some(String::from("https://chat.example.com")));
    store.set(String::from("https://chat.example.com"));
    assert_eq!(store.get(), Some(String::from("https://chat.example.com")));
}

#[test]
fn set_overwrites_previous_value() {
    let mut store = ConfigStore::new();
    store.set(String::from("https://one.example.org"));
    store.set(String::from("https://two.example.org/"));
    assert_eq!(store.get(), Some(String::from("https://two.example.org")));
}

#[test]
fn delete_then_get_returns_none() {
    let mut store = ConfigStore::new();
    store.set(String::from("https://chat.example.com"));
    store.delete();
    assert_eq!(store.get(), None);
}

#[test]
fn fresh_store_holds_nothing() {
    let store = ConfigStore::new();
    assert_eq!(store.get(), None);
}

#[test]
fn load_adopts_a_string_value_unchanged() {
    let store = ConfigStore::load(Some(ConfigValue::Text(String::from(
        "https://chat.example.com",
    ))));
    assert_eq!(store.get(), Some(String::from("https://chat.example.com")));
}

#[test]
fn load_treats_non_string_value_as_absent() {
    let store = ConfigStore::load(Some(ConfigValue::NotText));
    assert_eq!(store.get(), None);
}

#[test]
fn load_treats_missing_value_as_absent() {
    let store = ConfigStore::load(None);
    assert_eq!(store.get(), None);
}

#[test]
fn stored_url_resolves_without_prompt() {
    // The host asks the prompt only when the store answers nothing; a store
    // that holds a URL resolves to it unchanged.
    let store = ConfigStore::load(Some(ConfigValue::Text(String::from(
        "https://chat.example.com",
    ))));
    assert_eq!(store.get(), Some(String::from("https://chat.example.com")));
}

#[test]
fn untouched_placeholder_reply_is_rejected() {
    let mut store = ConfigStore::new();
    let resolved = accept_prompt_reply(&mut store, Some(String::from("https://")));
    assert_eq!(resolved, None);
    assert_eq!(store.get(), None);
}

#[test]
fn padded_placeholder_reply_is_rejected() {
    let mut store = ConfigStore::new();
    let resolved = accept_prompt_reply(&mut store, Some(String::from("  https://  ")));
    assert_eq!(resolved, None);
    assert_eq!(store.get(), None);
}

#[test]
fn reply_is_normalized_and_stored() {
    let mut store = ConfigStore::new();
    let resolved = accept_prompt_reply(
        &mut store,
        Some(String::from("https://chat.example.com/")),
    );
    assert_eq!(resolved, Some(String::from("https://chat.example.com")));
    assert_eq!(store.get(), Some(String::from("https://chat.example.com")));
}

#[test]
fn cancelled_prompt_changes_nothing() {
    let mut store = ConfigStore::new();
    let resolved = accept_prompt_reply(&mut store, None);
    assert_eq!(resolved, None);
    assert_eq!(store.get(), None);
}

#[test]
fn empty_reply_is_rejected() {
    let mut store = ConfigStore::new();
    assert_eq!(accept_prompt_reply(&mut store, Some(String::new())), None);
    assert_eq!(
        accept_prompt_reply(&mut store, Some(String::from("   \t\n "))),
        None
    );
    assert_eq!(accept_prompt_reply(&mut store, Some(String::from("///"))), None);
    assert_eq!(store.get(), None);
}

#[test]
fn fresh_install_prompt_flow() {
    // Fresh install: nothing stored, the prompt answers a server, the store
    // adopts it and the window would navigate to it.
    let mut store = ConfigStore::load(None);
    assert_eq!(store.get(), None);
    let resolved = accept_prompt_reply(
        &mut store,
        Some(String::from("https://my-nokta.example.org")),
    );
    assert_eq!(resolved, Some(String::from("https://my-nokta.example.org")));
    assert_eq!(store.get(), Some(String::from("https://my-nokta.example.org")));
}

#[test]
fn forget_then_cancelled_prompt_leaves_no_url() {
    // "Forget" while a URL is stored: the store is cleared, the prompt is
    // cancelled, no URL results, so the window keeps its prior page.
    let mut store = ConfigStore::load(Some(ConfigValue::Text(String::from(
        "https://chat.example.com",
    ))));
    store.delete();
    let resolved = accept_prompt_reply(&mut store, None);
    assert_eq!(resolved, None);
    assert_eq!(store.get(), None);
}

#[test]
fn normalize_trims_whitespace_then_trailing_slashes() {
    assert_eq!(
        normalize_url("  https://chat.example.com/  "),
        String::from("https://chat.example.com")
    );
    assert_eq!(
        normalize_url("\u{00A0}https://x.example\u{3000}"),
        String::from("https://x.example")
    );
    assert_eq!(normalize_url("///"), String::new());
    assert_eq!(normalize_url(""), String::new());
    assert_eq!(
        normalize_url("https://a.example/b/"),
        String::from("https://a.example/b")
    );
}
