use rust_download_subtitles::search::{sub_compare, NoSubtitles};
use rust_download_subtitles::{
    FileMatchResponse, SearchResultsResponse, SubtitleMatchAttributesResponse,
    SubtitleMatchResponse,
};
use std::cmp::Ordering;

fn sub(hearing_impaired: bool, legacy_subtitle_id: u32, ids: &[u32]) -> SubtitleMatchResponse {
    SubtitleMatchResponse {
        attributes: SubtitleMatchAttributesResponse {
            hearing_impaired,
            legacy_subtitle_id,
            files: ids.iter().map(|&file_id| FileMatchResponse { file_id }).collect(),
        },
    }
}

fn results(data: Vec<SubtitleMatchResponse>) -> SearchResultsResponse {
    SearchResultsResponse { data }
}

#[test]
fn compare_by_hearing_then_by_id() {
    assert_eq!(sub_compare(&sub(false, 9, &[]), &sub(true, 1, &[])), Ordering::Less);
    assert_eq!(sub_compare(&sub(true, 1, &[]), &sub(false, 9, &[])), Ordering::Greater);
    assert_eq!(sub_compare(&sub(true, 1, &[]), &sub(true, 2, &[])), Ordering::Less);
    assert_eq!(sub_compare(&sub(false, 3, &[]), &sub(false, 2, &[])), Ordering::Greater);
    assert_eq!(sub_compare(&sub(false, 3, &[1]), &sub(false, 3, &[2])), Ordering::Equal);
}

#[test]
fn all_files_in_order() {
    let r = results(vec![sub(false, 5, &[10, 11]), sub(true, 1, &[]), sub(false, 7, &[12])]);
    assert_eq!(r.file_ids(1, false), Ok(vec![10, 11, 12]));
}

#[test]
fn the_latest_alone() {
    let r = results(vec![sub(false, 5, &[10]), sub(false, 7, &[12, 13]), sub(false, 6, &[14])]);
    assert_eq!(r.file_ids(1, true), Ok(vec![12, 13]));
}

#[test]
fn hearing_impaired_comes_first() {
    let r = results(vec![sub(true, 1, &[20]), sub(false, 100, &[21])]);
    assert_eq!(r.file_ids(1, true), Ok(vec![20]));
}

#[test]
fn a_tie_goes_to_the_last() {
    let r = results(vec![sub(false, 5, &[1]), sub(false, 5, &[2]), sub(false, 4, &[3])]);
    assert_eq!(r.file_ids(1, true), Ok(vec![2]));
}

#[test]
fn subtitles_without_files_do_not_count() {
    let r = results(vec![sub(false, 5, &[1]), sub(true, 50, &[])]);
    assert_eq!(r.file_ids(1, true), Ok(vec![1]));
}

#[test]
fn a_search_that_finds_nothing() {
    for latest_only in [true, false] {
        assert_eq!(results(vec![]).file_ids(7, latest_only), Err(NoSubtitles { episode: 7 }));
        let r = results(vec![sub(true, 1, &[]), sub(false, 2, &[])]);
        assert_eq!(r.file_ids(8, latest_only), Err(NoSubtitles { episode: 8 }));
    }
    assert_eq!(
        NoSubtitles { episode: 105 }.message(),
        "No subtitles found for episode 105"
    );
}

#[test]
fn the_latest_is_among_all() {
    let r = results(vec![sub(false, 5, &[1, 2]), sub(true, 5, &[3]), sub(true, 4, &[4])]);
    let all = r.file_ids(1, false).unwrap();
    for id in r.file_ids(1, true).unwrap() {
        assert!(all.contains(&id));
    }
}
