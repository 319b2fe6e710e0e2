use music_bot::checks::{is_guild, is_owner, owner_ids, Membership, TeamMember};
use music_bot::error::Error;
use music_bot::events::LavalinkHandler;

#[test]
fn owners_without_team_is_the_owner() {
    assert_eq!(owner_ids(None, 42), vec![42]);
}

#[test]
fn owners_of_team_are_accepted_members_in_order() {
    let team = vec![
        TeamMember { user_id: 3, membership: Membership::Accepted },
        TeamMember { user_id: 1, membership: Membership::Invited },
        TeamMember { user_id: 7, membership: Membership::Accepted },
        TeamMember { user_id: 9, membership: Membership::Unknown },
    ];
    assert_eq!(owner_ids(Some(team), 42), vec![3, 7]);
    assert_eq!(owner_ids(Some(vec![]), 42), Vec::<u64>::new());
}

#[test]
fn owner_check() {
    let owners = vec![3, 7];
    assert!(is_owner(&owners, 7));
    assert!(!is_owner(&owners, 42));
    assert!(!is_owner(&vec![], 3));
}

#[test]
fn guild_check() {
    assert!(is_guild(Some(1)));
    assert!(!is_guild(None));
}

#[test]
fn error_messages() {
    assert_eq!(
        Error::RequiredArgument("Missing".to_string()).message(),
        "Required Argument Error => Missing"
    );
    assert_eq!(Error::Join("x".to_string()).message(), "Error while joining voice channel => x");
    assert_eq!(Error::Sqlx("Io".to_string()).message(), "Sqlx Error => Io");
    assert_eq!(Error::Migrate("m".to_string()).message(), "Error while running migrations => m");
    assert_eq!(Error::Serenity("s".to_string()).message(), "Serenity Error => s");
    assert_eq!(Error::StdIO("io".to_string()).message(), "std::io Error => io");
    assert_eq!(Error::Lavalink("l".to_string()).message(), "Lavalink Error => l");
}

#[test]
fn stop_only_when_nothing_was_skipped_to() {
    let h = LavalinkHandler;
    assert!(h.stop_after_skip(false));
    assert!(!h.stop_after_skip(true));
}
