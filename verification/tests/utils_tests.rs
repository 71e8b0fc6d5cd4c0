use rengo::interactions::component::ButtonStyleKind;
use rengo::utils::{
    image_lines, list_image_name, list_params, save_outcome, save_reply, save_responses,
    saved_key_params, show_plan, store_params, title_line, AnimeList,
};

#[test]
fn save_reply_texts() {
    assert_eq!(save_reply(true, 42, Some("yay")), "<@42> yay");
    assert_eq!(save_reply(true, 42, None), "Oopsie! Something went wrong... (｡•́︿•̀｡)");
    assert_eq!(save_reply(false, 42, Some("yay")), "<@42> this one's already saved, senpai~~ (¬_¬\")");
}

#[test]
fn save_outcome_stores_only_new_anime() {
    let lines = save_responses();
    assert_eq!(lines.len(), 3);
    for _ in 0..10 {
        let o = save_outcome(true, 123456789012345678);
        assert!(o.store);
        let rest = o.message.strip_prefix("<@123456789012345678> ").expect("mention first");
        assert!(lines.iter().any(|l| l == rest), "{}", o.message);
    }
    let o = save_outcome(false, 9);
    assert!(!o.store);
    assert_eq!(o.message, "<@9> this one's already saved, senpai~~ (¬_¬\")");
}

#[test]
fn show_plan_of_the_first_page() {
    let p = show_plan(0, 2, 3, 42, false);
    assert_eq!(p.draw_count, 3);
    assert_eq!(p.title, "Your precious Anime List~!");
    assert_eq!(p.description, "User: <@42>");
    assert_eq!(p.footer, "Page 1");
    assert_eq!(p.image, "attachment://animelist.png");
    assert!(p.prev_button.is_none());
    assert!(p.next_button.is_none());
    assert!(!p.update_message);
    assert_eq!(list_image_name(), "animelist.png");
}

#[test]
fn show_plan_of_a_middle_page() {
    let p = show_plan(7, 3, 15, 42, true);
    assert_eq!(p.draw_count, 7);
    assert_eq!(p.footer, "Page 2");
    let prev = p.prev_button.unwrap();
    assert_eq!(prev.custom_id, "2");
    assert_eq!(prev.label, "Prev");
    assert!(matches!(prev.style, ButtonStyleKind::Secondary));
    let next = p.next_button.unwrap();
    assert_eq!(next.custom_id, "3");
    assert_eq!(next.label, "Next");
    assert!(p.update_message);
}

#[test]
fn show_plan_with_exactly_seven_rows_has_no_next() {
    let p = show_plan(0, 2, 7, 1, false);
    assert_eq!(p.draw_count, 7);
    assert!(p.next_button.is_none());
    assert!(show_plan(0, 2, 8, 1, false).next_button.is_some());
}

#[test]
fn titles_on_the_picture() {
    assert_eq!(title_line("Naruto"), "Naruto");
    let t32 = "a".repeat(32);
    assert_eq!(title_line(&t32), t32);
    let t33 = "b".repeat(33);
    assert_eq!(title_line(&t33), format!("{}...", "b".repeat(32)));
    let long = "ゆ".repeat(40);
    assert_eq!(title_line(&long), format!("{}...", "ゆ".repeat(32)));
}

#[test]
fn picture_layout() {
    let list = vec![
        AnimeList { anime_id: 20, anime_title: "Naruto".to_string() },
        AnimeList { anime_id: 52991, anime_title: "Sousou no Frieren".to_string() },
    ];
    let lines = image_lines(&list);
    assert_eq!(lines.len(), 4);
    let got: Vec<(&str, i32, i32, bool)> =
        lines.iter().map(|l| (l.text.as_str(), l.x, l.y, l.bold)).collect();
    assert_eq!(
        got,
        vec![
            ("Naruto", 20, 30, true),
            ("ID: 20", 20, 60, false),
            ("Sousou no Frieren", 20, 110, true),
            ("ID: 52991", 20, 140, false),
        ]
    );
    assert!(image_lines(&Vec::new()).is_empty());
}

#[test]
fn query_parameters() {
    assert_eq!(saved_key_params(5, 20), vec!["5", "20"]);
    assert_eq!(store_params(5, "rin", 20, "Naruto"), vec!["5", "rin", "20", "Naruto"]);
    assert_eq!(list_params(5, 7, 14), vec!["5", "7", "15"]);
    assert_eq!(list_params(u64::MAX, 0, 254), vec![u64::MAX.to_string(), "0".to_string(), "255".to_string()]);
}
