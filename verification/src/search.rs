//! Replies of `/subtitles`, and the choice of the files to download.

use std::cmp::Ordering;
use vstd::prelude::*;

use crate::text::append_decimal;

verus! {

/// One file of a subtitle.
#[derive(Debug)]
pub struct FileMatchResponse {
    pub file_id: u32,
}

/// What the service tells of a subtitle.
#[derive(Debug)]
pub struct SubtitleMatchAttributesResponse {
    pub hearing_impaired: bool,
    pub legacy_subtitle_id: u32,
    pub files: Vec<FileMatchResponse>,
}

/// A subtitle that matches a search.
#[derive(Debug)]
pub struct SubtitleMatchResponse {
    pub attributes: SubtitleMatchAttributesResponse,
}

/// The reply to a search.
#[derive(Debug)]
pub struct SearchResultsResponse {
    pub data: Vec<SubtitleMatchResponse>,
}

/// No subtitle of a search holds a file.
#[derive(Clone, Copy, Debug, PartialEq, Eq, Structural)]
pub struct NoSubtitles {
    /// The episode that was searched for.
    pub episode: u32,
}

/// The ids of a subtitle's files, in the order of the reply.
pub open spec fn ids_of(sub: SubtitleMatchResponse) -> Seq<u32> {
    sub.attributes.files@.map_values(|file: FileMatchResponse| file.file_id)
}

/// The ids of all files of a list of subtitles, in the order of the reply.
pub open spec fn all_ids(data: Seq<SubtitleMatchResponse>) -> Seq<u32>
    decreases data.len(),
{
    if data.len() == 0 {
        Seq::empty()
    } else {
        all_ids(data.drop_last()) + ids_of(data.last())
    }
}

/// Whether the subtitle at a position can be downloaded at all.
pub open spec fn has_files(data: Seq<SubtitleMatchResponse>, i: int) -> bool {
    0 <= i < data.len() && data[i].attributes.files@.len() > 0
}

/// Whether any subtitle can be downloaded.
pub open spec fn any_files(data: Seq<SubtitleMatchResponse>) -> bool {
    exists|i: int| has_files(data, i)
}

/// Whether a subtitle ranks strictly below another: subtitles for the hearing impaired rank above
/// the others, and among equals a greater `legacy_subtitle_id` ranks higher.
pub open spec fn ranks_below(sub: SubtitleMatchResponse, other: SubtitleMatchResponse) -> bool {
    if sub.attributes.hearing_impaired == other.attributes.hearing_impaired {
        sub.attributes.legacy_subtitle_id < other.attributes.legacy_subtitle_id
    } else {
        other.attributes.hearing_impaired
    }
}

/// Whether a position holds the best subtitle: none with files ranks above it, and those after it
/// that have files rank below it.
pub open spec fn is_best(data: Seq<SubtitleMatchResponse>, i: int) -> bool {
    &&& has_files(data, i)
    &&& forall|j: int| #[trigger] has_files(data, j) ==> !ranks_below(data[i], data[j])
    &&& forall|j: int| #[trigger] has_files(data, j) && i < j ==> ranks_below(data[j], data[i])
}

/// The file ids to download: those of the best subtitle, or those of all subtitles.
pub open spec fn wanted_ids(data: Seq<SubtitleMatchResponse>, latest_only: bool) -> Seq<u32> {
    if latest_only {
        ids_of(data[choose|i: int| is_best(data, i)])
    } else {
        all_ids(data)
    }
}

/// Compares two subtitles by their rank.
pub fn sub_compare(sub: &SubtitleMatchResponse, other_sub: &SubtitleMatchResponse) -> (order: Ordering)
    ensures
        order == Ordering::Less <==> ranks_below(*sub, *other_sub),
        order == Ordering::Greater <==> ranks_below(*other_sub, *sub),
{
    let a = &sub.attributes;
    let b = &other_sub.attributes;
    if a.hearing_impaired == b.hearing_impaired {
        if a.legacy_subtitle_id < b.legacy_subtitle_id {
            Ordering::Less
        } else if a.legacy_subtitle_id == b.legacy_subtitle_id {
            Ordering::Equal
        } else {
            Ordering::Greater
        }
    } else if b.hearing_impaired {
        Ordering::Less
    } else {
        Ordering::Greater
    }
}

/// Whether a subtitle takes the place of the best one before it: a tie goes to the later one.
fn displaces(sub: &SubtitleMatchResponse, best: &SubtitleMatchResponse) -> (b: bool)
    ensures
        b == !ranks_below(*sub, *best),
{
    match sub_compare(best, sub) {
        Ordering::Greater => false,
        _ => true,
    }
}

/// Appends the ids of a subtitle's files.
fn append_ids(ids: &mut Vec<u32>, sub: &SubtitleMatchResponse)
    ensures
        final(ids)@ == old(ids)@ + ids_of(*sub),
{
    let files = &sub.attributes.files;
    for k in 0..files.len()
        invariant
            *files == sub.attributes.files,
            ids@ =~= old(ids)@ + ids_of(*sub).take(k as int),
    {
        ids.push(files[k].file_id);
    }
    assert(ids_of(*sub).take(files.len() as int) =~= ids_of(*sub));
}

/// The position of the best subtitle, if any subtitle has files.
fn best_subtitle(data: &Vec<SubtitleMatchResponse>) -> (best: Option<usize>)
    ensures
        best is Some <==> any_files(data@),
        best matches Some(i) ==> is_best(data@, i as int),
{
    let mut best: Option<usize> = None;
    for k in 0..data.len()
        invariant
            best is None ==> forall|j: int| 0 <= j < k ==> !#[trigger] has_files(data@, j),
            best matches Some(i) ==> {
                &&& i < k
                &&& has_files(data@, i as int)
                &&& forall|j: int| #[trigger]
                    has_files(data@, j) && j < k ==> !ranks_below(data@[i as int], data@[j])
                &&& forall|j: int| #[trigger]
                    has_files(data@, j) && i < j < k ==> ranks_below(data@[j], data@[i as int])
            },
    {
        if data[k].attributes.files.len() > 0 {
            assert(has_files(data@, k as int));
            match best {
                None => {
                    best = Some(k);
                },
                Some(i) => {
                    if displaces(&data[k], &data[i]) {
                        best = Some(k);
                    }
                },
            }
        }
    }
    best
}

impl SearchResultsResponse {
    /// Returns the file ids for the best subtitles.
    pub fn file_ids(&self, episode_number: u32, latest_only: bool) -> (r: Result<
        Vec<u32>,
        NoSubtitles,
    >)
        ensures
            r is Ok <==> any_files(self.data@),
            r matches Ok(ids) ==> ids@ == wanted_ids(self.data@, latest_only),
            r matches Ok(ids) ==> ids@.len() > 0,
            latest_only ==> forall|i: int| #[trigger]
                is_best(self.data@, i) ==> r is Ok && r->Ok_0@ == ids_of(self.data@[i]),
            r matches Err(e) ==> e == (NoSubtitles { episode: episode_number }),
    {
        let mut ids: Vec<u32> = Vec::new();
        if latest_only {
            if let Some(best) = best_subtitle(&self.data) {
                proof {
                    let chosen = choose|i: int| is_best(self.data@, i);
                    best_is_unique(self.data@, best as int, chosen);
                }
                append_ids(&mut ids, &self.data[best]);
                assert(ids@ =~= ids_of(self.data@[best as int]));
                assert forall|i: int| #[trigger] is_best(self.data@, i) implies i == best by {
                    best_is_unique(self.data@, best as int, i);
                }
                return Ok(ids);
            }
        }
        for k in 0..self.data.len()
            invariant
                ids@ == all_ids(self.data@.take(k as int)),
        {
            append_ids(&mut ids, &self.data[k]);
            assert(self.data@.take(k + 1).drop_last() =~= self.data@.take(k as int));
        }
        assert(self.data@.take(self.data.len() as int) =~= self.data@);
        proof {
            all_ids_empty(self.data@);
        }
        if ids.len() == 0 {
            Err(NoSubtitles { episode: episode_number })
        } else {
            Ok(ids)
        }
    }
}

impl NoSubtitles {
    /// The text of the error.
    pub open spec fn spec_message(self) -> Seq<char> {
        "No subtitles found for episode "@ + crate::text::decimal(self.episode as nat)
    }

    /// The text of the error.
    pub fn message(&self) -> (text: String)
        ensures
            text@ == self.spec_message(),
    {
        let mut text = "No subtitles found for episode ".to_owned();
        append_decimal(&mut text, self.episode);
        text
    }
}

/// The best subtitle of a reply is determined: no two positions are both the best.
pub proof fn best_is_unique(data: Seq<SubtitleMatchResponse>, i: int, j: int)
    requires
        is_best(data, i),
        is_best(data, j),
    ensures
        i == j,
{
    assert(has_files(data, i) && has_files(data, j));
}

/// The best subtitle exists wherever a subtitle has files.
pub proof fn best_exists(data: Seq<SubtitleMatchResponse>)
    requires
        any_files(data),
    ensures
        exists|i: int| is_best(data, i),
    decreases data.len(),
{
    let n = data.len() - 1;
    let front = data.drop_last();
    assert forall|j: int| 0 <= j < n implies has_files(front, j) == has_files(data, j) by {}
    if any_files(front) {
        best_exists(front);
        let i = choose|i: int| is_best(front, i);
        assert(has_files(front, i));
        if has_files(data, n) && !ranks_below(data[n], data[i]) {
            assert(is_best(data, n)) by {
                assert forall|j: int| #[trigger] has_files(data, j) implies !ranks_below(
                    data[n],
                    data[j],
                ) by {
                    if j < n {
                        assert(has_files(front, j));
                    }
                }
            }
        } else {
            assert(is_best(data, i)) by {
                assert forall|j: int| #[trigger] has_files(data, j) implies !ranks_below(
                    data[i],
                    data[j],
                ) && (i < j ==> ranks_below(data[j], data[i])) by {
                    if j < n {
                        assert(has_files(front, j));
                    }
                }
            }
        }
    } else {
        let i = choose|i: int| has_files(data, i);
        if i < n {
            assert(has_files(front, i));
        }
        assert(is_best(data, n)) by {
            assert forall|j: int| #[trigger] has_files(data, j) implies j == n by {
                if j < n {
                    assert(has_files(front, j));
                }
            }
        }
    }
}

/// There is an id to download exactly where a subtitle has files.
pub proof fn all_ids_empty(data: Seq<SubtitleMatchResponse>)
    ensures
        all_ids(data).len() == 0 <==> !any_files(data),
    decreases data.len(),
{
    if data.len() > 0 {
        let n = data.len() - 1;
        let front = data.drop_last();
        all_ids_empty(front);
        assert forall|j: int| 0 <= j < n implies has_files(front, j) == has_files(data, j) by {}
        if any_files(front) {
            let i = choose|i: int| has_files(front, i);
            assert(has_files(data, i));
        }
        if any_files(data) {
            let i = choose|i: int| has_files(data, i);
            if i < n {
                assert(has_files(front, i));
            } else {
                assert(ids_of(data.last()).len() > 0);
            }
        }
        if ids_of(data.last()).len() > 0 {
            assert(has_files(data, n));
        }
    }
}

/// Downloading the best subtitle alone downloads no file that downloading all subtitles would not.
pub proof fn latest_is_among_all(data: Seq<SubtitleMatchResponse>, id: u32)
    requires
        any_files(data),
        wanted_ids(data, true).contains(id),
    ensures
        wanted_ids(data, false).contains(id),
{
    best_exists(data);
    let i = choose|i: int| is_best(data, i);
    ids_among_all(data, i, id);
}

proof fn ids_among_all(data: Seq<SubtitleMatchResponse>, i: int, id: u32)
    requires
        0 <= i < data.len(),
        ids_of(data[i]).contains(id),
    ensures
        all_ids(data).contains(id),
    decreases data.len(),
{
    let front = all_ids(data.drop_last());
    let back = ids_of(data.last());
    if i < data.len() - 1 {
        ids_among_all(data.drop_last(), i, id);
        let k = choose|k: int| 0 <= k < front.len() && front[k] == id;
        assert((front + back)[k] == id);
    } else {
        let k = choose|k: int| 0 <= k < back.len() && back[k] == id;
        assert((front + back)[front.len() + k] == id);
    }
}

/// The rank is a strict order: nothing ranks below itself, no two subtitles rank below each other,
/// and ranks are transitive, among strict ranks and across ties alike.
pub proof fn rank_is_an_order(
    a: SubtitleMatchResponse,
    b: SubtitleMatchResponse,
    c: SubtitleMatchResponse,
)
    ensures
        !ranks_below(a, a),
        !(ranks_below(a, b) && ranks_below(b, a)),
        ranks_below(a, b) && ranks_below(b, c) ==> ranks_below(a, c),
        !ranks_below(a, b) && !ranks_below(b, c) ==> !ranks_below(a, c),
{
}

/// How many files a list of subtitles holds.
pub open spec fn files_in(data: Seq<SubtitleMatchResponse>) -> nat
    decreases data.len(),
{
    if data.len() == 0 {
        0
    } else {
        files_in(data.drop_last()) + data.last().attributes.files@.len()
    }
}

/// Downloading all subtitles of a reply downloads those of any first part of it and then those of
/// the rest, and the files of a single subtitle are its own, each once and in order. So nothing but
/// the files themselves decides what is downloaded.
pub proof fn replies_are_downloaded_part_by_part(
    a: Seq<SubtitleMatchResponse>,
    b: Seq<SubtitleMatchResponse>,
    sub: SubtitleMatchResponse,
)
    ensures
        wanted_ids(a + b, false) == wanted_ids(a, false) + wanted_ids(b, false),
        wanted_ids(seq![sub], false).len() == sub.attributes.files@.len(),
        forall|k: int|
            0 <= k < sub.attributes.files@.len() ==> wanted_ids(seq![sub], false)[k]
                == #[trigger] sub.attributes.files@[k].file_id,
{
    all_ids_of_sum(a, b);
    let one = seq![sub];
    assert(one.drop_last() =~= Seq::empty());
    assert(all_ids(one.drop_last()) =~= Seq::<u32>::empty());
    assert(all_ids(one) =~= ids_of(sub));
}

proof fn all_ids_of_sum(a: Seq<SubtitleMatchResponse>, b: Seq<SubtitleMatchResponse>)
    ensures
        all_ids(a + b) == all_ids(a) + all_ids(b),
    decreases b.len(),
{
    if b.len() == 0 {
        assert(a + b =~= a);
        assert(all_ids(a) + all_ids(b) =~= all_ids(a));
    } else {
        assert((a + b).drop_last() =~= a + b.drop_last());
        all_ids_of_sum(a, b.drop_last());
        assert(all_ids(a + b) =~= all_ids(a) + all_ids(b));
    }
}

/// Downloading all subtitles downloads each file in its place: behind the files of the subtitles
/// before its own, and behind those before it in its own.
pub proof fn every_file_has_its_place(data: Seq<SubtitleMatchResponse>, i: int, k: int)
    requires
        0 <= i < data.len(),
        0 <= k < data[i].attributes.files@.len(),
    ensures
        files_in(data.take(i)) + k < wanted_ids(data, false).len(),
        wanted_ids(data, false)[files_in(data.take(i)) + k] == data[i].attributes.files@[k].file_id,
    decreases data.len(),
{
    let front = data.drop_last();
    let n = data.len() - 1;
    as_many_ids_as_files(data);
    as_many_ids_as_files(front);
    if i < n {
        every_file_has_its_place(front, i, k);
        assert(front.take(i) =~= data.take(i));
    } else {
        assert(data.take(n) =~= front);
        assert(ids_of(data.last())[k] == data[i].attributes.files@[k].file_id);
    }
}

/// Downloading all subtitles downloads as many files as there are.
pub proof fn as_many_ids_as_files(data: Seq<SubtitleMatchResponse>)
    ensures
        wanted_ids(data, false).len() == files_in(data),
    decreases data.len(),
{
    if data.len() > 0 {
        as_many_ids_as_files(data.drop_last());
    }
}

/// A reply has something to download exactly if one of its subtitles has a file.
pub proof fn something_to_download(data: Seq<SubtitleMatchResponse>)
    ensures
        any_files(data) <==> exists|i: int|
            0 <= i < data.len() && (#[trigger] data[i]).attributes.files@.len() > 0,
        any_files(data) <==> files_in(data) > 0,
{
    if any_files(data) {
        let i = choose|i: int| has_files(data, i);
        assert(data[i].attributes.files@.len() > 0);
    }
    if exists|i: int| 0 <= i < data.len() && (#[trigger] data[i]).attributes.files@.len() > 0 {
        let i = choose|i: int|
            0 <= i < data.len() && (#[trigger] data[i]).attributes.files@.len() > 0;
        assert(has_files(data, i));
    }
    all_ids_empty(data);
    as_many_ids_as_files(data);
}

/// The rank is that of a number: the legacy id, raised beyond all legacy ids for the hearing
/// impaired.
pub proof fn rank_is_a_number(a: SubtitleMatchResponse, b: SubtitleMatchResponse)
    ensures
        ranks_below(a, b) <==> (if a.attributes.hearing_impaired {
            0x1_0000_0000int
        } else {
            0
        }) + a.attributes.legacy_subtitle_id < (if b.attributes.hearing_impaired {
            0x1_0000_0000int
        } else {
            0
        }) + b.attributes.legacy_subtitle_id,
{
}

/// Downloading the best subtitle alone downloads the files of one subtitle, each once and in order:
/// of those that have files, the one with the greatest rank, and the last of several such.
pub proof fn the_best_subtitle_is_downloaded(data: Seq<SubtitleMatchResponse>)
    requires
        exists|i: int| 0 <= i < data.len() && (#[trigger] data[i]).attributes.files@.len() > 0,
    ensures
        exists|i: int|
            {
                let best = (#[trigger] data[i]).attributes;
                let rank = (if best.hearing_impaired {
                    0x1_0000_0000int
                } else {
                    0
                }) + best.legacy_subtitle_id;
                &&& 0 <= i < data.len()
                &&& best.files@.len() > 0
                &&& wanted_ids(data, true).len() == best.files@.len()
                &&& forall|k: int|
                    0 <= k < best.files@.len() ==> wanted_ids(data, true)[k]
                        == #[trigger] best.files@[k].file_id
                &&& forall|j: int|
                    0 <= j < data.len() && (#[trigger] data[j]).attributes.files@.len() > 0 ==> {
                        let other = (if data[j].attributes.hearing_impaired {
                            0x1_0000_0000int
                        } else {
                            0
                        }) + data[j].attributes.legacy_subtitle_id;
                        other < rank || other == rank && j <= i
                    }
            },
{
    something_to_download(data);
    best_exists(data);
    let i = choose|i: int| is_best(data, i);
    assert(has_files(data, i));
    let best = data[i].attributes;
    assert forall|k: int| 0 <= k < best.files@.len() implies wanted_ids(data, true)[k]
        == #[trigger] best.files@[k].file_id by {
        assert(ids_of(data[i])[k] == best.files@[k].file_id);
    }
    assert forall|j: int|
        0 <= j < data.len() && (#[trigger] data[j]).attributes.files@.len() > 0 implies ({
        let rank = (if best.hearing_impaired {
            0x1_0000_0000int
        } else {
            0
        }) + best.legacy_subtitle_id;
        let other = (if data[j].attributes.hearing_impaired {
            0x1_0000_0000int
        } else {
            0
        }) + data[j].attributes.legacy_subtitle_id;
        other < rank || other == rank && j <= i
    }) by {
        assert(has_files(data, j));
        rank_is_a_number(data[i], data[j]);
        rank_is_a_number(data[j], data[i]);
    }
}

/// The text of an empty search names its episode at the end, behind the same words for every
/// episode.
pub proof fn empty_searches_name_their_episode(a: NoSubtitles, b: NoSubtitles)
    ensures
        ({
            let da = crate::text::decimal(a.episode as nat);
            let db = crate::text::decimal(b.episode as nat);
            let ta = a.spec_message();
            let tb = b.spec_message();
            &&& da.is_suffix_of(ta)
            &&& ta.take(ta.len() - da.len()) == tb.take(tb.len() - db.len())
            &&& a.episode != b.episode ==> ta != tb
        }),
{
    let da = crate::text::decimal(a.episode as nat);
    let db = crate::text::decimal(b.episode as nat);
    let ta = a.spec_message();
    let tb = b.spec_message();
    let words = "No subtitles found for episode "@;
    crate::text::ends_of_sum(words, da);
    assert(ta.take(ta.len() - da.len()) =~= words);
    assert(tb.take(tb.len() - db.len()) =~= words);
    if ta == tb {
        assert(da =~= ta.skip(words.len() as int));
        assert(db =~= tb.skip(words.len() as int));
        crate::text::decimal_injective(a.episode as nat, b.episode as nat);
    }
}

} // verus!
