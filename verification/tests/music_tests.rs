use music_bot::error::Error;
use music_bot::music::{
    check_query, gateway_join_result, joined_message, menu_options, not_connected_message,
    not_found_message, play_plan, playlist_hint, queue_position, queued_track_reply,
    search_menu, searching_message, select_prompt, track_colour, track_length_text,
    track_reply, voice_channel_to_join, PlayPlan, RequestedChannel, TrackInfo,
};
use music_bot::text::parse_index;

fn info(title: &str, author: &str, length: u64) -> TrackInfo {
    TrackInfo {
        title: title.to_string(),
        author: author.to_string(),
        identifier: "NwFVSclD_uc".to_string(),
        uri: "https://www.youtube.com/watch?v=NwFVSclD_uc".to_string(),
        length,
    }
}

#[test]
fn length_text_short_and_long() {
    assert_eq!(track_length_text(0), "00:00");
    assert_eq!(track_length_text(999), "00:00");
    assert_eq!(track_length_text(59_000), "00:59");
    assert_eq!(track_length_text(61_500), "01:01");
    assert_eq!(track_length_text(3_599_999), "59:59");
    assert_eq!(track_length_text(3_600_000), "1:00:00");
    assert_eq!(track_length_text(3_723_000), "1:02:03");
    assert_eq!(track_length_text(36_000_000), "10:00:00");
    assert_eq!(track_length_text(u64::MAX), {
        let l = u64::MAX / 1000;
        format!("{}:{:02}:{:02}", l / 3600, l % 3600 / 60, l % 3600 % 60)
    });
}

#[test]
fn length_parts_add_up() {
    for ms in [0u64, 1_000, 59_999, 3_723_000, 987_654_321] {
        let text = track_length_text(ms);
        let parts: Vec<u64> = text.split(':').map(|p| p.parse().unwrap()).collect();
        let secs = match parts.len() {
            3 => parts[0] * 3600 + parts[1] * 60 + parts[2],
            _ => parts[0] * 60 + parts[1],
        };
        assert_eq!(secs, ms / 1000);
    }
}

#[test]
fn reply_for_queued_track() {
    let i = info("I Love You So", "The Walters", 160_000);
    let r = track_reply(&i, 0x123456, 3, "user#0001", Some("https://cdn/avatar.png".to_string()), "https://cdn/default.png".to_string());
    assert_eq!(r.title, "I Love You So");
    assert_eq!(r.colour, 0x123456);
    assert_eq!(r.thumbnail, "https://i.ytimg.com/vi/NwFVSclD_uc/default.jpg");
    assert_eq!(r.url, "https://www.youtube.com/watch?v=NwFVSclD_uc");
    assert_eq!(r.footer_text, "Submitted by user#0001");
    assert_eq!(r.footer_icon, "https://cdn/avatar.png");
    assert_eq!(r.description, "• **Uploader**: The Walters\n• **Length**:   02:40");
    assert_eq!(r.content, "Added to queue, with position 3");

    let r2 = track_reply(&i, 0, 0, "u#1", None, "https://cdn/default.png".to_string());
    assert_eq!(r2.footer_icon, "https://cdn/default.png");
    assert_eq!(r2.content, "Added to queue, with position 0");
}

#[test]
fn queued_reply_draws_a_colour_below_white() {
    let i = info("t", "a", 123_456);
    let r = queued_track_reply(&i, 1, "u#1", None, "d".to_string());
    assert!(r.colour < 0xFFFFFF);
    assert_eq!(r.content, "Added to queue, with position 1");
    assert_eq!(r.description, "• **Uploader**: a\n• **Length**:   02:03");
    assert_eq!(r.colour, track_colour(123_456));
    for seed in [0u64, 1, 160_000, u64::MAX] {
        assert!(track_colour(seed) < 0xFFFFFF);
        assert_eq!(track_colour(seed), track_colour(seed));
    }
}

#[test]
fn queue_positions() {
    assert_eq!(queue_position(Some(1)), 0);
    assert_eq!(queue_position(Some(5)), 4);
    assert_eq!(queue_position(None), 1);
}

#[test]
fn menu_lists_at_most_25_numbered_results() {
    let infos: Vec<TrackInfo> = (0..30).map(|k| info(&format!("title {}", k), &format!("author {}", k), 1)).collect();
    let opts = menu_options(&infos);
    assert_eq!(opts.len(), 25);
    for (i, o) in opts.iter().enumerate() {
        assert_eq!(o.label, format!("title {}", i));
        assert_eq!(o.description, format!("{}. author {}", i, i));
        assert_eq!(o.value, i.to_string());
        assert_eq!(parse_index(&o.value), Some(i));
    }
    let few = menu_options(&infos[..2].iter().map(|t| info(&t.title, &t.author, t.length)).collect());
    assert_eq!(few.len(), 2);
    assert_eq!(menu_options(&vec![]).len(), 0);
}

#[test]
fn search_menu_has_random_v4_id_and_single_choice() {
    let infos = vec![info("a", "b", 1)];
    let m = search_menu(&infos);
    let id: Vec<char> = m.custom_id.chars().collect();
    assert_eq!(id.len(), 36);
    for (k, c) in id.iter().enumerate() {
        if [8, 13, 18, 23].contains(&k) {
            assert_eq!(*c, '-');
        } else {
            assert!(c.is_ascii_digit() || ('a'..='f').contains(c));
        }
    }
    assert_eq!(id[14], '4');
    assert!(['8', '9', 'a', 'b'].contains(&id[19]));
    assert_eq!(m.min_values, 1);
    assert_eq!(m.max_values, 1);
    assert_eq!(m.options.len(), 1);
    assert_ne!(search_menu(&infos).custom_id, m.custom_id);
}

#[test]
fn empty_query_is_refused() {
    assert_eq!(
        check_query(""),
        Err(Error::RequiredArgument("Missing the search query or URL".to_string()))
    );
    assert_eq!(check_query("I Love You So"), Ok(()));
}

#[test]
fn play_plans() {
    assert_eq!(play_plan("anything", 0), PlayPlan::NoResults);
    assert_eq!(play_plan("I Love You So", 5), PlayPlan::PlayFirst { playlist_hint: false });
    assert_eq!(play_plan("https://youtube.com/playlist?list=x", 5), PlayPlan::PlayFirst { playlist_hint: true });
    assert_eq!(play_plan("https://youtube.com/watch?v=x", 1), PlayPlan::PlayFirst { playlist_hint: false });
    assert_eq!(play_plan("htt", 3), PlayPlan::PlayFirst { playlist_hint: false });
}

#[test]
fn voice_channel_choice() {
    let voice = RequestedChannel { id: 10, is_voice: true };
    let text = RequestedChannel { id: 11, is_voice: false };
    assert_eq!(voice_channel_to_join(Some(voice), Some(20)), Ok(10));
    assert_eq!(voice_channel_to_join(Some(voice), None), Ok(10));
    assert_eq!(voice_channel_to_join(Some(text), Some(20)), Ok(20));
    assert_eq!(voice_channel_to_join(None, Some(20)), Ok(20));
    assert_eq!(
        voice_channel_to_join(Some(text), None),
        Err(Error::Join("You are not in a voice channel".to_string()))
    );
    assert_eq!(
        voice_channel_to_join(None, None),
        Err(Error::Join("You are not in a voice channel".to_string()))
    );
}

#[test]
fn gateway_results() {
    assert_eq!(gateway_join_result(true, 5), Ok(5));
    assert_eq!(
        gateway_join_result(false, 5),
        Err(Error::Join("Error joining the channel".to_string()))
    );
}

#[test]
fn command_texts() {
    assert_eq!(searching_message("abc"), "Searching for abc");
    assert_eq!(not_found_message("abc"), "Could not find any results for query or url abc");
    assert_eq!(playlist_hint(), "If you would like to play the entire playlist, use `playlist` instead.");
    assert_eq!(select_prompt(), "Please select a track to play.");
    assert_eq!(
        not_connected_message(),
        "Please connect the bot to the voice channel you are currently in using the `join` command."
    );
    assert_eq!(joined_message(123456789012345678), "Joined <#123456789012345678>");
}
