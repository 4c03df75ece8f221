use rust_download_subtitles::config::EpisodeSeqError;
use rust_download_subtitles::{ClientConfig, Config, EpisodeConfig};

fn config(from: u32, to: u32) -> EpisodeConfig {
    EpisodeConfig {
        destination_folder: "/tmp/subs".to_string(),
        episode_from: from,
        episode_to: to,
        languages: "en,es".to_string(),
        latest_only: true,
        parent_imdb_id: "903747".to_string(),
        season_number: 2,
        show_year: "2008".to_string(),
        title: "Breaking Bad".to_string(),
    }
}

#[test]
fn episode_to_is_inclusive() {
    let seq = config(3, 7).episode_seq().unwrap();
    assert_eq!(seq.size, 5);
    assert_eq!(seq.range, 3..8);
    assert_eq!(seq.range.collect::<Vec<u32>>(), vec![3, 4, 5, 6, 7]);
}

#[test]
fn a_single_episode() {
    let seq = config(4, 4).episode_seq().unwrap();
    assert_eq!(seq.size, 1);
    assert_eq!(seq.range, 4..5);
}

#[test]
fn a_reversed_range_is_its_first_episode() {
    let seq = config(9, 2).episode_seq().unwrap();
    assert_eq!(seq.size, 1);
    assert_eq!(seq.range, 9..10);
    let seq = config(3, 2).episode_seq().unwrap();
    assert_eq!(seq.size, 1);
    assert_eq!(seq.range, 3..4);
}

#[test]
fn episode_zero() {
    let seq = config(0, 0).episode_seq().unwrap();
    assert_eq!(seq.size, 1);
    assert_eq!(seq.range, 0..1);
}

#[test]
fn the_widest_range() {
    let seq = config(0, u32::MAX - 1).episode_seq().unwrap();
    assert_eq!(seq.size, u32::MAX as usize);
    assert_eq!(seq.range, 0..u32::MAX);
}

#[test]
fn the_sequence_error_text() {
    assert_eq!(EpisodeSeqError {}.message(), "Internal operation on EpisodeConfig");
}

#[test]
fn file_names_are_padded() {
    assert_eq!(config(1, 1).file_name(5), "Breaking Bad S02E05 2008");
    assert_eq!(config(1, 1).file_name(0), "Breaking Bad S02E00 2008");
    assert_eq!(config(1, 1).file_name(10), "Breaking Bad S02E10 2008");
    let mut c = config(1, 1);
    c.season_number = 12;
    assert_eq!(c.file_name(134), "Breaking Bad S12E134 2008");
    assert_eq!(c.file_name(u32::MAX), "Breaking Bad S12E4294967295 2008");
}

#[test]
fn names_of_episodes_differ() {
    let c = config(1, 1);
    let names: Vec<String> = (0..120).map(|e| c.file_name(e)).collect();
    for i in 0..names.len() {
        for j in 0..i {
            assert_ne!(names[i], names[j]);
        }
    }
}

#[test]
fn the_search_is_not_padded() {
    assert_eq!(
        config(1, 1).search_query(5),
        "subtitles?episode_number=5&foreign_parts_only=exclude&languages=en,es&parent_imdb_id=903747&season_number=2"
    );
    assert_ne!(config(1, 1).search_query(5), config(1, 1).search_query(6));
}

#[test]
fn a_configuration_can_be_copied() {
    let c = Config {
        client_config: ClientConfig {
            api_key: "k".to_string(),
            account: vec![("u".to_string(), "p".to_string())],
        },
        episode_config: config(1, 2),
    };
    let d = c.clone();
    assert_eq!(d.client_config.account[0].1, "p");
    assert_eq!(d.episode_config.title, "Breaking Bad");
}
