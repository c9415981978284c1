use oauth_session::cookie_manager::CookieManager;

#[test]
fn manager_holds_what_it_was_given() {
    let manager = CookieManager::new(vec![("k", "v")], 7u8);
    assert_eq!(manager.store, vec![("k", "v")]);
    assert_eq!(manager.inner, 7);
}
