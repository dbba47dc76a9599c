use voxlume::auth::{
    audiobook_limit, auth_heading, auth_submit_label, check_notification_owner,
    check_subscription_owner, current_user_answer, current_user_id, friendly_error,
    login_answer, login_credentials, logout_step, opens_on_login, register_answer, AccountAnswer,
    LogoutStep, ServerError,
};
use voxlume::dates::print_date;
use voxlume::entities::{Author, Category, Reader, Series};
use voxlume::layout::{
    hover_after_pointer, hover_after_touch, search_path, search_results_view, sidebar_column_class,
    SearchResultsView, SidebarVisible,
};
use voxlume::notifications::{
    clear_all, join_notifications, mark_all_seen_in, mark_seen_in, remove_from, row_class, row_key,
    should_mark_as_read, title_class, UserNotification,
};
use voxlume::requests::{MetaRequest, MetaResponse};
use voxlume::sidebar::{
    filter_entries, initial_section_state, label_matches, section_entries, section_page,
    section_request, section_step, SectionEntry, SectionEvent, SectionKind, SortOrder,
};
use voxlume::subscriptions::{
    existence_answer, panel_subscription, subscription_button_text, subscription_step,
    subscription_step_answer, SubscriptionExists, SubscriptionStep, SubscriptionType,
};
use voxlume::theme::{AudiobookDisplayMode, Theme};

fn note(user_id: i64, audiobook_id: i64, seen: bool) -> UserNotification {
    UserNotification { user_id, audiobook_id, has_been_seen: seen, created_at: 0, created_at_nanos: 0 }
}

#[test]
fn theme_text_and_toggle() {
    assert_eq!(Theme::Light.to_string(), "light");
    assert_eq!(Theme::Dark.to_string(), "dark");
    assert_eq!(Theme::from_string(Some("dark".to_string())), Theme::Dark);
    assert_eq!(Theme::from_string(Some("light".to_string())), Theme::Light);
    assert_eq!(Theme::from_string(Some("DARK".to_string())), Theme::Light);
    assert_eq!(Theme::from_string(None), Theme::Light);
    assert_eq!(Theme::Light.toggle(), Theme::Dark);
    assert_eq!(Theme::Dark.toggle().toggle(), Theme::Dark);
    for t in [Theme::Light, Theme::Dark] {
        assert_eq!(Theme::from_string(Some(t.to_string())), t);
    }
}

#[test]
fn display_mode_cycles() {
    let m = AudiobookDisplayMode::TableLike;
    assert_eq!(m.cycle(), AudiobookDisplayMode::ListLike);
    assert_eq!(m.cycle().cycle(), AudiobookDisplayMode::GridLike);
    assert_eq!(m.cycle().cycle().cycle(), m);
}

#[test]
fn join_keeps_order_and_last_book() {
    let ns = vec![note(1, 10, false), note(1, 99, false), note(1, 20, true), note(1, 10, true)];
    let ids = vec![20, 10, 30, 10];
    let joined = join_notifications(&ns, &ids);
    assert_eq!(joined, vec![(ns[0], 3), (ns[2], 0), (ns[3], 3)]);
    assert!(join_notifications(&vec![], &ids).is_empty());
    assert!(join_notifications(&ns, &vec![]).is_empty());
}

#[test]
fn marking_one_notification_seen() {
    let mut items = vec![(note(1, 10, false), "a"), (note(1, 11, false), "b"), (note(1, 10, false), "c")];
    mark_seen_in(&mut items, note(1, 10, false));
    assert_eq!(items[0], (note(1, 10, true), "a"));
    assert_eq!(items[1], (note(1, 11, false), "b"));
    assert_eq!(items[2], (note(1, 10, false), "c"));
    let before = items.clone();
    mark_seen_in(&mut items, note(2, 10, false));
    assert_eq!(items, before);
}

#[test]
fn marking_all_and_clearing() {
    let mut items = vec![(note(1, 10, false), 1), (note(1, 11, true), 2)];
    mark_all_seen_in(&mut items);
    assert_eq!(items, vec![(note(1, 10, true), 1), (note(1, 11, true), 2)]);
    clear_all(&mut items);
    assert!(items.is_empty());
}

#[test]
fn deleting_a_notification() {
    let mut items = vec![(note(1, 10, false), 'a'), (note(1, 11, false), 'b'), (note(1, 10, false), 'c')];
    remove_from(&mut items, note(1, 10, false));
    assert_eq!(items, vec![(note(1, 11, false), 'b')]);
    remove_from(&mut items, note(1, 12, false));
    assert_eq!(items, vec![(note(1, 11, false), 'b')]);
}

#[test]
fn notifications_differ_by_instant() {
    let earlier = note(1, 10, false);
    let later = UserNotification { created_at_nanos: 500, ..earlier };
    let mut items = vec![(earlier, 'a'), (later, 'b')];
    remove_from(&mut items, earlier);
    assert_eq!(items, vec![(later, 'b')]);
    let mut items = vec![(earlier, 'a'), (later, 'b')];
    mark_seen_in(&mut items, later);
    assert!(!items[0].0.has_been_seen);
    assert!(items[1].0.has_been_seen);
}

#[test]
fn empty_filter_keeps_every_entry() {
    let entries = vec![entry("b"), entry("A"), entry("")];
    let kept: Vec<String> = filter_entries(&entries, "").iter().map(|e| e.label.clone()).collect();
    assert_eq!(kept, vec!["b".to_string(), "A".to_string(), String::new()]);
    assert_eq!(filter_entries(&Vec::new(), "").len(), 0);
}

#[test]
fn account_answers() {
    assert_eq!(login_answer(Some(7)), AccountAnswer::OpenSession(7));
    assert_eq!(login_answer(None), AccountAnswer::Refuse(ServerError::LoginFailed));
    assert_eq!(register_answer(Some(8)), AccountAnswer::OpenSession(8));
    assert_eq!(register_answer(None), AccountAnswer::DefaultUser);
}

#[test]
fn notification_row_presentation() {
    assert!(should_mark_as_read(&note(1, 1, false)));
    assert!(!should_mark_as_read(&note(1, 1, true)));
    assert_eq!(row_class(&note(1, 1, true)), "has-text-grey");
    assert_eq!(
        row_class(&note(1, 1, false)),
        "has-background-white-ter has-text-weight-medium has-text-grey-dark"
    );
    assert_eq!(title_class(&note(1, 1, true)), "");
    assert_eq!(title_class(&note(1, 1, false)), "has-text-grey-darker");
    assert_eq!(row_key(&note(3, 4, true)), (3, 4, true));
}

#[test]
fn notification_dates() {
    assert_eq!(print_date(0).unwrap(), "01/01/1970 00:00");
    assert_eq!(print_date(1_491_137_400).unwrap(), "02/04/2017 12:50");
    assert_eq!(print_date(253_402_300_799).unwrap(), "31/12/9999 23:59");
    assert!(print_date(i64::MAX).is_none());
    assert!(print_date(i64::MIN).is_none());
    assert_eq!(print_date(-1).unwrap(), "31/12/1969 23:59");
    assert_eq!(print_date(253_402_300_800).unwrap(), "01/01/+10000 00:00");
    assert_eq!(print_date(8_210_266_876_799).unwrap(), "31/12/+262142 23:59");
    assert!(print_date(8_210_266_876_800).is_none());
    assert_eq!(print_date(-8_334_601_228_800).unwrap(), "01/01/-262143 00:00");
    assert!(print_date(-8_334_601_228_801).is_none());
}

#[test]
fn resolving_the_current_user() {
    assert_eq!(current_user_id(None), Err(ServerError::NoAuthSession));
    assert_eq!(current_user_id(Some(None)), Err(ServerError::NoCurrentUser));
    assert_eq!(current_user_id(Some(Some(7))), Ok(7));
    assert_eq!(current_user_answer(None), Err(ServerError::NoUserContext));
    assert_eq!(current_user_answer(Some(Some(3))), Ok(Some(3)));
    assert_eq!(current_user_answer(Some(None)), Ok(None));
}

#[test]
fn audiobook_limits_by_user() {
    assert_eq!(audiobook_limit(None, 20, 40), Err(ServerError::NoAuthSession));
    assert_eq!(audiobook_limit(Some(None), 20, 40), Ok(20));
    assert_eq!(audiobook_limit(Some(Some(1)), 20, 40), Ok(20));
    assert_eq!(audiobook_limit(Some(Some(2)), 20, 40), Ok(40));
}

#[test]
fn ownership_checks() {
    assert_eq!(check_notification_owner(1, &note(1, 5, false)), Ok(()));
    assert_eq!(check_notification_owner(2, &note(1, 5, false)), Err(ServerError::NotNotificationOwner));
    assert_eq!(check_subscription_owner(3, 3), Ok(()));
    assert_eq!(check_subscription_owner(3, 4), Err(ServerError::NotSubscriptionOwner));
}

#[test]
fn credentials_checked_in_order() {
    assert_eq!(login_credentials(None, None, false), Err(ServerError::UsernameMissing));
    assert_eq!(login_credentials(Some("u".into()), None, true), Err(ServerError::PasswordMissing));
    assert_eq!(login_credentials(Some("u".into()), Some("p".into()), false), Err(ServerError::NoAuthContext));
    assert_eq!(
        login_credentials(Some("u".into()), Some("p".into()), true),
        Ok(("u".to_string(), "p".to_string()))
    );
}

#[test]
fn error_messages() {
    assert_eq!(ServerError::NoAuthSession.message(), "Couldn't find auth session");
    assert_eq!(ServerError::NoCurrentUser.message(), "Couldn't find current user.");
    assert_eq!(ServerError::UsernameMissing.message(), "Username must be defined");
    assert_eq!(ServerError::PasswordMissing.message(), "Password must be defined");
    assert_eq!(ServerError::NoAuthContext.message(), "Couldn't retrieve auth context");
    assert_eq!(ServerError::NoUserContext.message(), "No auth context found.");
    assert_eq!(ServerError::NoLogoutContext.message(), "Couldn't get the auth context");
    assert_eq!(
        ServerError::NotNotificationOwner.message(),
        "Unauthorized: You can only mark your own notifications as read."
    );
    assert_eq!(
        ServerError::NotSubscriptionOwner.message(),
        "You tried to delete a subscription that doesn't belong to you"
    );
    assert_eq!(
        ServerError::UnknownSubscriptionState.message(),
        "Can't register/delete a subscription with unknown value"
    );
    assert_eq!(ServerError::LoginFailed.message(), "Couldn't log in users");
}

#[test]
fn logout_decisions() {
    assert_eq!(logout_step(None), Err(ServerError::NoLogoutContext));
    assert_eq!(logout_step(Some(None)), Ok(LogoutStep::NothingToEnd));
    assert_eq!(logout_step(Some(Some(4))), Ok(LogoutStep::EndSession));
}

#[test]
fn auth_page_decisions() {
    assert!(opens_on_login("/login"));
    assert!(!opens_on_login("/register"));
    assert!(!opens_on_login("/sign-up"));
    assert_eq!(friendly_error("Server Fn Error: Couldn't log in users"), "Couldn't log in users");
    assert_eq!(friendly_error("plain"), "plain");
    assert_eq!(auth_heading(true), "Welcome Back");
    assert_eq!(auth_heading(false), "Create Account");
    assert_eq!(auth_submit_label(true), "Log in");
    assert_eq!(auth_submit_label(false), "Sign up");
}

#[test]
fn subscription_panel() {
    let t = SubscriptionType::ToAuthor(Author { id: 1, name: "A".into() });
    let s = panel_subscription(Some(5), Some(t.clone())).unwrap();
    assert_eq!(s.user_id, 5);
    assert_eq!(s.subscription_type, t);
    assert!(panel_subscription(None, Some(t)).is_none());
    assert!(panel_subscription(Some(5), None).is_none());
    assert_eq!(existence_answer(false, true), SubscriptionExists::Unknown);
    assert_eq!(existence_answer(true, true), SubscriptionExists::Yes);
    assert_eq!(existence_answer(true, false), SubscriptionExists::No);
    assert_eq!(subscription_button_text(SubscriptionExists::Unknown), "Loading...");
    assert_eq!(subscription_button_text(SubscriptionExists::Yes), "Unsubscribe");
    assert_eq!(subscription_button_text(SubscriptionExists::No), "Subscribe");
    let _ = SubscriptionType::ToSeries(Series { id: 2, title: "S".into() });
    let _ = SubscriptionType::ToReader(Reader { id: 3, name: "R".into() });
}

#[test]
fn subscription_toggling() {
    assert_eq!(subscription_step(SubscriptionExists::Yes, false), SubscriptionStep::AnswerUnknown);
    assert_eq!(subscription_step(SubscriptionExists::Unknown, true), SubscriptionStep::Refuse);
    assert_eq!(subscription_step(SubscriptionExists::Yes, true), SubscriptionStep::Delete);
    assert_eq!(subscription_step(SubscriptionExists::No, true), SubscriptionStep::Add);
    assert_eq!(subscription_step_answer(SubscriptionStep::Delete), Ok(SubscriptionExists::No));
    assert_eq!(subscription_step_answer(SubscriptionStep::Add), Ok(SubscriptionExists::Yes));
    assert_eq!(subscription_step_answer(SubscriptionStep::AnswerUnknown), Ok(SubscriptionExists::Unknown));
    assert_eq!(
        subscription_step_answer(SubscriptionStep::Refuse),
        Err(ServerError::UnknownSubscriptionState)
    );
    let once = subscription_step_answer(subscription_step(SubscriptionExists::Yes, true)).unwrap();
    let twice = subscription_step_answer(subscription_step(once, true)).unwrap();
    assert_eq!(twice, SubscriptionExists::Yes);
}

#[test]
fn sidebar_requests() {
    assert_eq!(
        section_request(SectionKind::Categories, SortOrder::Alphabetical),
        MetaRequest::CategoriesAlphabetically(0, 100_000)
    );
    assert_eq!(
        section_request(SectionKind::Authors, SortOrder::ByCount),
        MetaRequest::AuthorsByPublishedAudiobooks(0, 100_000)
    );
    assert_eq!(
        section_request(SectionKind::Series, SortOrder::ByCount),
        MetaRequest::SeriesBySubscriber(0, 100_000)
    );
    assert_eq!(
        section_request(SectionKind::Readers, SortOrder::ByCount),
        MetaRequest::ReaderByPublishedAudiobooks(0, 100_000)
    );
}

#[test]
fn sidebar_entries_from_answers() {
    let answer = MetaResponse::Categories(vec![Category { id: 3, value: "Drama".into() }]);
    let e = section_entries(SectionKind::Categories, &answer);
    assert_eq!(e.len(), 1);
    assert_eq!(e[0].href, "/category/3/Drama/1");
    assert_eq!(e[0].label, "Drama");
    assert!(section_entries(SectionKind::Authors, &answer).is_empty());
    let authors = MetaResponse::Authors(vec![Author { id: 1, name: "Ann".into() }]);
    assert_eq!(section_entries(SectionKind::Authors, &authors)[0].href, "/author/1/Ann/1");
}

fn entry(label: &str) -> SectionEntry {
    SectionEntry { href: format!("/x/{label}"), label: label.to_string() }
}

#[test]
fn sidebar_filter_ignores_case() {
    let entries = vec![entry("Science Fiction"), entry("Fantasy"), entry("ÉCOLE"), entry("Sci")];
    let kept: Vec<String> = filter_entries(&entries, "SCI").iter().map(|e| e.label.clone()).collect();
    assert_eq!(kept, vec!["Science Fiction".to_string(), "Sci".to_string()]);
    let kept: Vec<String> = filter_entries(&entries, "école").iter().map(|e| e.label.clone()).collect();
    assert_eq!(kept, vec!["ÉCOLE".to_string()]);
    assert_eq!(filter_entries(&entries, "").len(), 4);
    assert!(label_matches("fantasy", "tas"));
    assert!(!label_matches("fantasy", "Tas"));
}

#[test]
fn sidebar_pages() {
    let entries: Vec<SectionEntry> = (0..40).map(|i| entry(&format!("e{i}"))).collect();
    let p = section_page(&entries, 0);
    assert_eq!(p.entries.len(), 15);
    assert_eq!(p.entries[0].label, "e0");
    assert_eq!(p.page, 0);
    assert_eq!(p.last_page, 2);
    assert!(p.show_pager);
    assert!(p.prev_disabled);
    assert!(!p.next_disabled);
    assert_eq!(p.position, "1/3");
    let p = section_page(&entries, 9);
    assert_eq!(p.page, 2);
    assert_eq!(p.entries.len(), 10);
    assert_eq!(p.entries[0].label, "e30");
    assert!(p.next_disabled);
    assert_eq!(p.position, "3/3");
    let empty = section_page(&vec![], 4);
    assert_eq!(empty.page, 0);
    assert!(empty.entries.is_empty());
    assert!(!empty.show_pager);
    assert_eq!(empty.position, "1/1");
    let exact: Vec<SectionEntry> = (0..15).map(|i| entry(&format!("e{i}"))).collect();
    let p = section_page(&exact, 1);
    assert_eq!(p.last_page, 0);
    assert!(!p.show_pager);
    assert_eq!(p.entries.len(), 15);
}

#[test]
fn sidebar_section_state() {
    let s = initial_section_state();
    assert_eq!(s.sort_order, SortOrder::Alphabetical);
    let s = section_step(s, SectionEvent::NextPage);
    let s = section_step(s, SectionEvent::NextPage);
    assert_eq!(s.page, 2);
    let s = section_step(s, SectionEvent::PreviousPage);
    assert_eq!(s.page, 1);
    let s = section_step(s, SectionEvent::ToggleSort);
    assert_eq!(s.sort_order, SortOrder::ByCount);
    assert_eq!(s.page, 0);
    let s = section_step(s, SectionEvent::PreviousPage);
    assert_eq!(s.page, 0);
    let s = section_step(s, SectionEvent::ToggleSearch);
    assert!(s.search_visible);
    let s = section_step(s, SectionEvent::SetQuery("fan".into()));
    assert_eq!(s.query, "fan");
    let s = section_step(s, SectionEvent::NextPage);
    let s = section_step(s, SectionEvent::ToggleCollapse);
    assert!(s.collapsed);
    assert_eq!(s.page, 1);
    let s = section_step(s, SectionEvent::ToggleSearch);
    assert!(!s.search_visible);
    assert_eq!(s.query, "");
    assert_eq!(s.page, 0);
}

#[test]
fn sidebar_visibility_counter() {
    let mut v = SidebarVisible::new();
    assert!(v.is_visible());
    v.request_hidden();
    assert!(!v.is_visible());
    v.request_hidden();
    v.release_hidden();
    assert!(!v.is_visible());
    v.release_hidden();
    assert!(v.is_visible());
    assert_eq!(v, SidebarVisible::new());
}

#[test]
fn layout_decisions() {
    assert_eq!(sidebar_column_class(true), "column is-3-desktop is-2-widescreen sidebar-column");
    assert_eq!(sidebar_column_class(false), "column is-narrow sidebar-column");
    assert!(hover_after_pointer(false, true));
    assert!(!hover_after_pointer(false, false));
    assert!(hover_after_touch(false));
    assert_eq!(search_path("dune messiah"), "/search/dune messiah");
    assert_eq!(search_results_view(None), SearchResultsView::Loading);
    assert_eq!(search_results_view(Some(vec![])), SearchResultsView::NoResults);
    assert_eq!(search_results_view(Some(vec![4, 2])), SearchResultsView::Results(vec![4, 2]));
}
