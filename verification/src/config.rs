//! The configuration, and what follows from it for one episode.

use vstd::prelude::*;

use crate::text::{append_decimal, append_padded};

verus! {

/// Access to the service.
#[derive(Clone, Debug)]
pub struct ClientConfig {
    pub api_key: String,
    /// User names with their passwords.
    pub account: Vec<(String, String)>,
}

/// What to download and where to put it.
#[derive(Clone, Debug)]
pub struct EpisodeConfig {
    pub destination_folder: String,
    pub episode_from: u32,
    /// Inclusive.
    pub episode_to: u32,
    pub languages: String,
    /// Whether to download only the best subtitle of an episode, instead of all its subtitles.
    pub latest_only: bool,
    pub parent_imdb_id: String,
    pub season_number: u32,
    pub show_year: String,
    /// Name of the TV show.
    pub title: String,
}

/// The whole configuration.
#[derive(Clone, Debug)]
pub struct Config {
    pub client_config: ClientConfig,
    pub episode_config: EpisodeConfig,
}

/// The episodes to download.
#[derive(Debug)]
pub struct EpisodeSeq {
    /// How many episodes there are.
    pub size: usize,
    /// The episode numbers.
    pub range: std::ops::Range<u32>,
}

/// The number of episodes does not fit in memory.
#[derive(Clone, Copy, Debug, PartialEq, Eq, Structural)]
pub struct EpisodeSeqError {}

/// Whether an episode is one of those that a configuration asks for: those from `episode_from` to
/// `episode_to`, both included, or `episode_from` alone where `episode_to` comes before it.
pub open spec fn is_wanted(config: EpisodeConfig, episode: int) -> bool {
    ||| config.episode_from <= episode <= config.episode_to
    ||| episode == config.episode_from
}

/// The search for the subtitles of an episode, relative to the base of the API.
pub open spec fn search_reference(config: EpisodeConfig, episode: u32) -> Seq<char> {
    "subtitles?episode_number="@ + crate::text::decimal(episode as nat)
        + "&foreign_parts_only=exclude&languages="@ + config.languages@ + "&parent_imdb_id="@
        + config.parent_imdb_id@ + "&season_number="@ + crate::text::decimal(
        config.season_number as nat,
    )
}

/// The name of an episode's folder and files: the title, the season, the episode and the year.
pub open spec fn episode_name(config: EpisodeConfig, episode: u32) -> Seq<char> {
    config.title@ + " S"@ + crate::text::padded(config.season_number as nat) + "E"@
        + crate::text::padded(episode as nat) + " "@ + config.show_year@
}

impl EpisodeSeqError {
    /// The text of the error.
    pub fn message(&self) -> (text: String)
        ensures
            text@ == "Internal operation on EpisodeConfig"@,
    {
        "Internal operation on EpisodeConfig".to_owned()
    }
}

impl EpisodeConfig {
    /// The episodes that the configuration asks for.
    pub fn episode_seq(&self) -> (r: Result<EpisodeSeq, EpisodeSeqError>)
        requires
            self.episode_from < u32::MAX,
            self.episode_to < u32::MAX,
        ensures
            r is Ok,
            r->Ok_0.range.start == self.episode_from,
            self.episode_from <= self.episode_to ==> r->Ok_0.range.end == self.episode_to + 1,
            self.episode_from > self.episode_to ==> r->Ok_0.range.end == self.episode_from + 1,
            forall|episode: u32|
                r->Ok_0.range.start <= episode < r->Ok_0.range.end <==> is_wanted(
                    *self,
                    episode as int,
                ),
            r->Ok_0.size == r->Ok_0.range.end - r->Ok_0.range.start,
            r->Ok_0.size >= 1,
    {
        let episode_end: u32 = self.episode_to + 1;
        if episode_end > self.episode_from {
            match usize::try_from(episode_end - self.episode_from) {
                Ok(size) => Ok(EpisodeSeq { size, range: self.episode_from..episode_end }),
                Err(_) => Err(EpisodeSeqError {  }),
            }
        } else {
            Ok(EpisodeSeq { size: 1, range: self.episode_from..(self.episode_from + 1) })
        }
    }

    /// The search for the subtitles of an episode, relative to the base of the API.
    pub fn search_query(&self, episode: u32) -> (text: String)
        ensures
            text@ == search_reference(*self, episode),
    {
        let mut text = "subtitles?episode_number=".to_owned();
        append_decimal(&mut text, episode);
        text.append("&foreign_parts_only=exclude&languages=");
        text.append(self.languages.as_str());
        text.append("&parent_imdb_id=");
        text.append(self.parent_imdb_id.as_str());
        text.append("&season_number=");
        append_decimal(&mut text, self.season_number);
        text
    }

    /// The name of an episode's folder and files.
    pub fn file_name(&self, episode: u32) -> (text: String)
        ensures
            text@ == episode_name(*self, episode),
    {
        let mut text = self.title.clone();
        text.append(" S");
        append_padded(&mut text, self.season_number);
        text.append("E");
        append_padded(&mut text, episode);
        text.append(" ");
        text.append(self.show_year.as_str());
        text
    }
}

/// Two episodes of one configuration never share a name.
pub proof fn episode_names_differ(config: EpisodeConfig, a: u32, b: u32)
    requires
        a != b,
    ensures
        episode_name(config, a) != episode_name(config, b),
{
    let front = config.title@ + " S"@ + crate::text::padded(config.season_number as nat) + "E"@;
    let pa = crate::text::padded(a as nat);
    let pb = crate::text::padded(b as nat);
    let back = " "@ + config.show_year@;
    assert(episode_name(config, a) =~= front + pa + back);
    assert(episode_name(config, b) =~= front + pb + back);
    if episode_name(config, a) == episode_name(config, b) {
        crate::text::middle_is_determined(front, pa, pb, back);
        crate::text::padded_injective(a as nat, b as nat);
    }
}

/// Two searches of one configuration that ask for different episodes are different.
pub proof fn searches_differ(config: EpisodeConfig, a: u32, b: u32)
    requires
        a != b,
    ensures
        search_reference(config, a) != search_reference(config, b),
{
    let front = "subtitles?episode_number="@;
    let da = crate::text::decimal(a as nat);
    let db = crate::text::decimal(b as nat);
    let back = "&foreign_parts_only=exclude&languages="@ + config.languages@ + "&parent_imdb_id="@
        + config.parent_imdb_id@ + "&season_number="@ + crate::text::decimal(
        config.season_number as nat,
    );
    assert(search_reference(config, a) =~= front + da + back);
    assert(search_reference(config, b) =~= front + db + back);
    if search_reference(config, a) == search_reference(config, b) {
        crate::text::middle_is_determined(front, da, db, back);
        crate::text::decimal_injective(a as nat, b as nat);
    }
}

/// A search starts with the path and the episode, goes on with the languages, and ends with the show
/// and the season. Nothing else stands in it, and none of these is cut or changed.
pub proof fn search_holds_its_parts(config: EpisodeConfig, episode: u32)
    ensures
        ({
            let text = search_reference(config, episode);
            let front = "subtitles?episode_number="@ + crate::text::decimal(episode as nat)
                + "&foreign_parts_only=exclude&languages="@ + config.languages@ + "&"@;
            let back = "&parent_imdb_id="@ + config.parent_imdb_id@ + "&season_number="@
                + crate::text::decimal(config.season_number as nat);
            &&& front.is_prefix_of(text)
            &&& back.is_suffix_of(text)
            &&& text.len() + 1 == front.len() + back.len()
        }),
{
    let text = search_reference(config, episode);
    let head = "subtitles?episode_number="@ + crate::text::decimal(episode as nat)
        + "&foreign_parts_only=exclude&languages="@ + config.languages@;
    let id = config.parent_imdb_id@;
    let season = "&season_number="@ + crate::text::decimal(config.season_number as nat);
    let tail = "parent_imdb_id="@ + id + season;
    let back = "&parent_imdb_id="@ + id + "&season_number="@ + crate::text::decimal(
        config.season_number as nat,
    );
    reveal_strlit("&");
    reveal_strlit("parent_imdb_id=");
    reveal_strlit("&parent_imdb_id=");
    assert("&parent_imdb_id="@ =~= "&"@ + "parent_imdb_id="@);
    assert(text =~= (head + "&"@) + tail);
    assert(text =~= head + back);
    crate::text::ends_of_sum(head + "&"@, tail);
    crate::text::ends_of_sum(head, back);
}

/// A search ends in the number of the season: a name, an equals sign and then nothing but the digits
/// of the season, all of them.
pub proof fn search_ends_in_the_season(config: EpisodeConfig, episode: u32)
    ensures
        ({
            let text = search_reference(config, episode);
            exists|digits: nat|
                {
                    &&& 1 <= digits <= text.len()
                    &&& config.season_number < #[trigger] vstd::arithmetic::power::pow(10, digits)
                    &&& digits > 1 ==> vstd::arithmetic::power::pow(10, (digits - 1) as nat)
                        <= config.season_number
                    &&& forall|k: nat|
                        k < digits ==> text[text.len() - 1 - k] as int == 48 + (
                        config.season_number as int / #[trigger] vstd::arithmetic::power::pow(10, k))
                            % 10
                    &&& "&season_number="@.is_suffix_of(text.take(text.len() - digits))
                }
        }),
{
    let text = search_reference(config, episode);
    let season = config.season_number as nat;
    let d = crate::text::decimal(season);
    let digits = d.len();
    crate::text::decimal_digits(season);
    search_holds_its_parts(config, episode);
    let lead = "&parent_imdb_id="@ + config.parent_imdb_id@ + "&season_number="@;
    let back = lead + d;
    let n = text.len() - back.len();
    assert forall|i: int| 0 <= i < back.len() implies #[trigger] back[i] == text[n + i] by {
        assert(text.subrange(n, text.len() as int)[i] == text[n + i]);
    }
    assert forall|k: nat| k < digits implies text[text.len() - 1 - k] as int == 48 + (
    config.season_number as int / #[trigger] vstd::arithmetic::power::pow(10, k)) % 10 by {
        assert(back[back.len() - 1 - k] == d[digits - 1 - k]);
    }
    let rest = text.take(text.len() - digits);
    let name = "&season_number="@;
    assert(name =~= rest.subrange(rest.len() - name.len(), rest.len() as int)) by {
        assert forall|i: int| 0 <= i < name.len() implies name[i] == rest[rest.len() - name.len()
            + i] by {
            assert(back[lead.len() - name.len() + i] == name[i]);
        }
    }
    assert(season < vstd::arithmetic::power::pow(10, digits));
}

/// Searches of two configurations that ask for the same episode, and differ in one of the season,
/// the languages and the show, are different.
pub proof fn searches_tell_configurations_apart(a: EpisodeConfig, b: EpisodeConfig, episode: u32)
    ensures
        a.languages@ == b.languages@ && a.parent_imdb_id@ == b.parent_imdb_id@ && a.season_number
            != b.season_number ==> search_reference(a, episode) != search_reference(b, episode),
        a.season_number == b.season_number && a.parent_imdb_id@ == b.parent_imdb_id@
            && a.languages@ != b.languages@ ==> search_reference(a, episode) != search_reference(
            b,
            episode,
        ),
        a.season_number == b.season_number && a.languages@ == b.languages@ && a.parent_imdb_id@
            != b.parent_imdb_id@ ==> search_reference(a, episode) != search_reference(b, episode),
{
    let head = "subtitles?episode_number="@ + crate::text::decimal(episode as nat)
        + "&foreign_parts_only=exclude&languages="@;
    let da = crate::text::decimal(a.season_number as nat);
    let db = crate::text::decimal(b.season_number as nat);
    let empty = Seq::<char>::empty();
    let ta = search_reference(a, episode);
    let tb = search_reference(b, episode);
    if ta == tb {
        if a.languages@ == b.languages@ && a.parent_imdb_id@ == b.parent_imdb_id@ {
            let front = head + a.languages@ + "&parent_imdb_id="@ + a.parent_imdb_id@
                + "&season_number="@;
            assert(ta =~= front + da + empty);
            assert(tb =~= front + db + empty);
            crate::text::middle_is_determined(front, da, db, empty);
            crate::text::decimal_injective(a.season_number as nat, b.season_number as nat);
        }
        if a.season_number == b.season_number && a.parent_imdb_id@ == b.parent_imdb_id@ {
            let back = "&parent_imdb_id="@ + a.parent_imdb_id@ + "&season_number="@ + da;
            assert(ta =~= head + a.languages@ + back);
            assert(tb =~= head + b.languages@ + back);
            crate::text::middle_is_determined(head, a.languages@, b.languages@, back);
        }
        if a.season_number == b.season_number && a.languages@ == b.languages@ {
            let front = head + a.languages@ + "&parent_imdb_id="@;
            let back = "&season_number="@ + da;
            assert(ta =~= front + a.parent_imdb_id@ + back);
            assert(tb =~= front + b.parent_imdb_id@ + back);
            crate::text::middle_is_determined(front, a.parent_imdb_id@, b.parent_imdb_id@, back);
        }
    }
}

/// The name of an episode starts with the whole title and the season, and ends with the episode and
/// the whole year. Nothing else stands in it.
pub proof fn name_holds_its_parts(config: EpisodeConfig, episode: u32)
    ensures
        ({
            let name = episode_name(config, episode);
            let front = config.title@ + " S"@ + crate::text::padded(config.season_number as nat)
                + "E"@;
            let back = "E"@ + crate::text::padded(episode as nat) + " "@ + config.show_year@;
            &&& config.title@.is_prefix_of(name)
            &&& " S"@.is_prefix_of(name.skip(config.title@.len() as int))
            &&& front.is_prefix_of(name)
            &&& back.is_suffix_of(name)
            &&& config.show_year@.is_suffix_of(name)
            &&& name.len() + 1 == front.len() + back.len()
        }),
{
    let name = episode_name(config, episode);
    let title = config.title@;
    let season = crate::text::padded(config.season_number as nat);
    let front = title + " S"@ + season + "E"@;
    let number = crate::text::padded(episode as nat) + " "@;
    let year = config.show_year@;
    reveal_strlit("E");
    let back = "E"@ + crate::text::padded(episode as nat) + " "@ + year;
    let behind = " S"@ + (season + "E"@ + number + year);
    assert(name =~= front + (number + year));
    assert(name =~= (title + " S"@ + season) + back);
    assert(name =~= title + behind);
    assert(name =~= (front + number) + year);
    assert(name.skip(title.len() as int) =~= behind);
    crate::text::ends_of_sum(front, number + year);
    crate::text::ends_of_sum(title + " S"@ + season, back);
    crate::text::ends_of_sum(title, behind);
    crate::text::ends_of_sum(front + number, year);
    crate::text::ends_of_sum(" S"@, season + "E"@ + number + year);
}

/// Names of one episode number under two configurations that differ in one of the title, the season
/// and the year are different.
pub proof fn names_tell_configurations_apart(a: EpisodeConfig, b: EpisodeConfig, episode: u32)
    ensures
        a.season_number == b.season_number && a.show_year@ == b.show_year@ && a.title@ != b.title@
            ==> episode_name(a, episode) != episode_name(b, episode),
        a.title@ == b.title@ && a.show_year@ == b.show_year@ && a.season_number != b.season_number
            ==> episode_name(a, episode) != episode_name(b, episode),
        a.title@ == b.title@ && a.season_number == b.season_number && a.show_year@ != b.show_year@
            ==> episode_name(a, episode) != episode_name(b, episode),
{
    let pa = crate::text::padded(a.season_number as nat);
    let pb = crate::text::padded(b.season_number as nat);
    let middle = "E"@ + crate::text::padded(episode as nat) + " "@;
    let empty = Seq::<char>::empty();
    let na = episode_name(a, episode);
    let nb = episode_name(b, episode);
    if na == nb {
        if a.season_number == b.season_number && a.show_year@ == b.show_year@ {
            let back = " S"@ + pa + middle + a.show_year@;
            assert(na =~= empty + a.title@ + back);
            assert(nb =~= empty + b.title@ + back);
            crate::text::middle_is_determined(empty, a.title@, b.title@, back);
        }
        if a.title@ == b.title@ && a.show_year@ == b.show_year@ {
            let front = a.title@ + " S"@;
            let back = middle + a.show_year@;
            assert(na =~= front + pa + back);
            assert(nb =~= front + pb + back);
            crate::text::middle_is_determined(front, pa, pb, back);
            crate::text::padded_injective(a.season_number as nat, b.season_number as nat);
        }
        if a.title@ == b.title@ && a.season_number == b.season_number {
            let front = a.title@ + " S"@ + pa + middle;
            assert(na =~= front + a.show_year@ + empty);
            assert(nb =~= front + b.show_year@ + empty);
            crate::text::middle_is_determined(front, a.show_year@, b.show_year@, empty);
        }
    }
}

} // verus!
