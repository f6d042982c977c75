use slack_client::conversations::{
    begin_list_conversations, ChannelInfo, ConversationLister, ConversationPage,
};
use slack_client::errors::ErrorKind;
use slack_client::token::ApiToken;
use slack_client::world::World;

fn channel(id: &str) -> ChannelInfo {
    ChannelInfo {
        id: id.to_string(),
        name: Some(format!("name-{id}")),
        is_im: None,
        is_private: Some(true),
        is_mpim: None,
        is_archived: Some(false),
        num_members: Some(7),
    }
}

fn page(ids: &[&str], cursor: Option<&str>) -> ConversationPage {
    ConversationPage {
        channels: ids.iter().map(|id| channel(id)).collect(),
        next_cursor: cursor.map(|c| c.to_string()),
    }
}

#[test]
fn three_pages_of_five_stop_at_ten() {
    let mut lister = ConversationLister::new(Some(10));

    let req1 = lister.next_request().expect("first page needed");
    assert_eq!(req1.limit, 10); // min(200, 10 - 0)
    assert_eq!(req1.cursor, None);
    lister.absorb_page(page(&["1", "2", "3", "4", "5"], Some("c1")));

    let req2 = lister.next_request().expect("second page needed");
    assert_eq!(req2.limit, 5); // min(200, 10 - 5)
    assert_eq!(req2.cursor.as_deref(), Some("c1"));
    lister.absorb_page(page(&["6", "7", "8", "9", "10"], Some("c2")));

    // Ten collected: no further page is requested even though a cursor
    // remains.
    assert!(lister.next_request().is_none());
    let items = lister.into_items();
    assert_eq!(items.len(), 10);
    assert_eq!(items[0].id, "1");
    assert_eq!(items[9].id, "10");
}

#[test]
fn one_short_page_ends_the_listing() {
    let mut lister = ConversationLister::new(Some(500));
    let mut requests = 0;

    while let Some(req) = lister.next_request() {
        requests += 1;
        assert_eq!(req.limit, 200); // min(200, 500 - 0)
        lister.absorb_page(page(&["1", "2", "3", "4", "5", "6", "7"], None));
    }

    assert_eq!(requests, 1);
    assert_eq!(lister.into_items().len(), 7);
}

#[test]
fn default_bound_is_five_hundred() {
    let lister = ConversationLister::new(None);
    assert_eq!(lister.max, 500);
    let req = lister.next_request().expect("page needed");
    assert_eq!(req.limit, 200);
}

#[test]
fn an_overshooting_page_is_truncated() {
    let mut lister = ConversationLister::new(Some(3));
    let req = lister.next_request().expect("page needed");
    assert_eq!(req.limit, 3);
    lister.absorb_page(page(&["1", "2", "3", "4", "5"], Some("c1")));
    assert!(lister.next_request().is_none());
    let items = lister.into_items();
    assert_eq!(items.len(), 3);
    assert_eq!(items[2].id, "3");
}

#[test]
fn a_zero_bound_requests_nothing() {
    let lister = ConversationLister::new(Some(0));
    assert!(lister.next_request().is_none());
    assert!(lister.into_items().is_empty());
}

#[test]
fn omitted_flags_default_to_false() {
    let mut lister = ConversationLister::new(Some(1));
    lister.absorb_page(page(&["only"], None));
    let items = lister.into_items();
    assert_eq!(items.len(), 1);
    let item = &items[0];
    assert_eq!(item.id, "only");
    assert_eq!(item.name.as_deref(), Some("name-only"));
    assert!(!item.is_im); // omitted
    assert!(item.is_private);
    assert!(!item.is_mpim); // omitted
    assert!(!item.is_archived);
    assert_eq!(item.num_members, Some(7));
}

#[test]
fn cursor_of_the_last_page_is_carried_forward() {
    let mut lister = ConversationLister::new(Some(10));
    lister.absorb_page(page(&["1"], Some("next")));
    let req = lister.next_request().expect("page needed");
    assert_eq!(req.cursor.as_deref(), Some("next"));
    assert_eq!(req.limit, 9);
}

#[test]
fn listing_requires_an_initialized_world() {
    let world = World::new();
    let e = begin_list_conversations(&world, Some(10)).unwrap_err();
    assert_eq!(e.kind, ErrorKind::NotInitialized);
}

#[test]
fn listing_uses_the_active_credential() {
    let mut world = World::new();
    let entity = world.get_or_spawn_profile("work");
    world.set_token(entity, ApiToken::App { value: "xoxb-active".to_string() });
    world.set_active_profile(entity);
    let (token, lister) = begin_list_conversations(&world, None).expect("active profile");
    assert_eq!(token.secret(), "xoxb-active");
    assert_eq!(lister.max, 500);
}
