//! The names tried for an output file, and the folder that it goes into.

use vstd::prelude::*;

use crate::text::append_decimal;

verus! {

/// How many names are tried for one output file.
pub const NUMBER_OF_SUBTITLES: u32 = 100;

/// The name of an attempt: the file name itself at first, then the file name with a serial number.
pub open spec fn candidate_name(file_name: Seq<char>, attempt: nat) -> Seq<char> {
    if attempt == 0 {
        file_name
    } else {
        file_name + "_"@ + crate::text::decimal(attempt)
    }
}

/// What became of an attempt to create a file.
#[derive(Clone, Copy, Debug, PartialEq, Eq, Structural)]
pub enum FileOutcome {
    /// The file is open for writing and holds this many bytes.
    Opened { len: u64 },
    /// The file could not be opened, or its length could not be read.
    Refused,
}

/// What to do after an attempt.
#[derive(Clone, Copy, Debug, PartialEq, Eq, Structural)]
pub enum FileStep {
    /// Write into the file that was opened.
    Keep,
    /// Try the next name.
    TryNext,
    /// No name is left.
    GiveUp,
}

/// Whether an attempt yields a file to write into: it must be open and empty.
pub open spec fn is_usable(outcome: FileOutcome) -> bool {
    outcome == (FileOutcome::Opened { len: 0 })
}

/// What to do after the given number of attempts before this one and the outcome of this one.
pub open spec fn file_step(attempt: nat, outcome: FileOutcome) -> FileStep {
    if is_usable(outcome) {
        FileStep::Keep
    } else if attempt + 1 < NUMBER_OF_SUBTITLES {
        FileStep::TryNext
    } else {
        FileStep::GiveUp
    }
}

/// What to do once it is known whether the folder of an output file could be made: try the first
/// name, or give up.
pub fn folder_step(made: bool) -> (step: FileStep)
    ensures
        step == (if made {
            FileStep::TryNext
        } else {
            FileStep::GiveUp
        }),
{
    if made {
        FileStep::TryNext
    } else {
        FileStep::GiveUp
    }
}

/// Whether a text holds no character that separates the parts of a path on some machine.
pub open spec fn has_no_separator(text: Seq<char>) -> bool {
    forall|i: int| 0 <= i < text.len() ==> #[trigger] text[i] != '/' && text[i] != '\\'
}

/// Whether a path ends in the name of a file, and the same one on every machine. A backslash, a
/// double slash in front, and a drive letter with nothing or a dot behind it mean different things
/// on different machines.
pub open spec fn names_a_file(path: Seq<char>) -> bool {
    let len = path.len() as int;
    &&& len > 0
    &&& path[len - 1] != '/'
    &&& !(path[len - 1] == '.' && (len == 1 || path[len - 2] == '/'))
    &&& !(len >= 2 && path[len - 1] == '.' && path[len - 2] == '.' && (len == 2 || path[len - 3]
        == '/'))
    &&& !path.contains('\\')
    &&& !(len >= 2 && path[0] == '/' && path[1] == '/')
    &&& !(len >= 2 && path[1] == ':' && (len == 2 || path[2] == '.'))
}

/// Whether the extension of the file name of a path starts behind a position: the last dot is
/// there, in the file name and not at its start.
pub open spec fn is_extension_dot(path: Seq<char>, i: int) -> bool {
    &&& crate::download::is_last_dot(path, i)
    &&& i > 0
    &&& path[i - 1] != '/'
    &&& forall|j: int| i < j < path.len() ==> path[j] != '/'
}

/// A path without the extension of its file name.
pub open spec fn stem(path: Seq<char>) -> Seq<char> {
    if exists|i: int| is_extension_dot(path, i) {
        path.take(choose|i: int| is_extension_dot(path, i))
    } else {
        path
    }
}

/// A path with the extension of its file name set: the old extension, if there is one, makes way,
/// and an empty extension leaves none.
pub open spec fn with_extension(path: Seq<char>, extension: Seq<char>) -> Seq<char> {
    if extension.len() == 0 {
        stem(path)
    } else {
        stem(path).push('.') + extension
    }
}

/// Whether a text holds a character.
fn holds_char(text: &str, c: char) -> (b: bool)
    ensures
        b == text@.contains(c),
{
    let len = text.unicode_len();
    let mut k: usize = 0;
    while k < len
        invariant
            k <= len,
            len == text@.len(),
            forall|i: int| 0 <= i < k ==> text@[i] != c,
        decreases len - k,
    {
        if text.get_char(k) == c {
            assert(text@[k as int] == c);
            return true;
        }
        k = k + 1;
    }
    false
}

/// Whether a text holds no character that separates the parts of a path on some machine.
fn lacks_separator(text: &str) -> (b: bool)
    ensures
        b == has_no_separator(text@),
{
    let slash = holds_char(text, '/');
    let backslash = holds_char(text, '\\');
    assert(!slash && !backslash ==> has_no_separator(text@)) by {
        assert forall|i: int| !slash && !backslash && 0 <= i < text@.len() implies
            #[trigger] text@[i] != '/' && text@[i] != '\\' by {
            assert(text@.contains(text@[i]));
        }
    }
    !slash && !backslash
}

/// Whether a path ends in the name of a file, and the same one on every machine.
fn is_file_name(path: &str) -> (b: bool)
    ensures
        b == names_a_file(path@),
{
    let len = path.unicode_len();
    if len == 0 || path.get_char(len - 1) == '/' || holds_char(path, '\\') {
        return false;
    }
    if path.get_char(len - 1) == '.' {
        if len == 1 || path.get_char(len - 2) == '/' {
            return false;
        }
        if path.get_char(len - 2) == '.' && (len == 2 || path.get_char(len - 3) == '/') {
            return false;
        }
    }
    if len >= 2 && path.get_char(0) == '/' && path.get_char(1) == '/' {
        return false;
    }
    !(len >= 2 && path.get_char(1) == ':' && (len == 2 || path.get_char(2) == '.'))
}

/// A path without the extension of its file name.
fn stem_of(path: &str) -> (text: String)
    ensures
        text@ == stem(path@),
{
    let len = path.unicode_len();
    let mut k: usize = len;
    while k > 1 && path.get_char(k - 1) != '/' && path.get_char(k - 1) != '.'
        invariant
            k <= len,
            len == path@.len(),
            forall|j: int| k <= j < len ==> path@[j] != '.' && path@[j] != '/',
        decreases k,
    {
        k = k - 1;
    }
    if k > 1 && path.get_char(k - 1) == '.' && path.get_char(k - 2) != '/' {
        proof {
            assert(is_extension_dot(path@, k - 1));
            let dot = choose|i: int| is_extension_dot(path@, i);
            crate::download::last_dot_is_unique(path@, k - 1, dot);
        }
        assert(path@.subrange(0, k - 1) =~= path@.take(k - 1));
        path.substring_char(0, k - 1).to_owned()
    } else {
        path.to_owned()
    }
}

/// Sets the extension of the file name of a path.
fn set_extension(path: &str, extension: &str) -> (text: String)
    ensures
        text@ == with_extension(path@, extension@),
{
    let mut text = stem_of(path);
    if extension.unicode_len() > 0 {
        proof {
            reveal_strlit(".");
        }
        text.append(".");
        text.append(extension);
        assert(text@ =~= stem(path@).push('.') + extension@);
    }
    text
}

/// The search for a name under which an output file can be created.
#[derive(Debug)]
pub struct FileSearch {
    file_name: String,
    attempt: u32,
}

impl FileSearch {
    #[verifier::type_invariant]
    spec fn well_formed(self) -> bool {
        self.attempt < NUMBER_OF_SUBTITLES
    }

    /// The file name without a serial number.
    pub closed spec fn file_name(self) -> Seq<char> {
        self.file_name@
    }

    /// How many attempts have failed.
    pub closed spec fn attempt(self) -> nat {
        self.attempt as nat
    }

    /// Starts with the file name itself.
    pub fn new(file_name: String) -> (search: FileSearch)
        ensures
            search.file_name() == file_name@,
            search.attempt() == 0,
    {
        FileSearch { file_name, attempt: 0 }
    }

    /// The name to try now.
    pub fn candidate(&self) -> (text: String)
        ensures
            text@ == candidate_name(self.file_name(), self.attempt()),
    {
        let mut text = self.file_name.clone();
        if self.attempt > 0 {
            text.append("_");
            append_decimal(&mut text, self.attempt);
        }
        text
    }

    /// The file to try now: the name with its extension set. There is none where the name does not
    /// name a file or names another one on another machine, or where the extension holds a
    /// separator.
    pub fn file(&self, extension: &str) -> (r: Option<String>)
        ensures
            ({
                let candidate = candidate_name(self.file_name(), self.attempt());
                &&& r is Some <==> names_a_file(candidate) && has_no_separator(extension@)
                &&& r matches Some(file) ==> file@ == with_extension(candidate, extension@)
            }),
    {
        let candidate = self.candidate();
        if is_file_name(candidate.as_str()) && lacks_separator(extension) {
            Some(set_extension(candidate.as_str(), extension))
        } else {
            None
        }
    }

    /// Takes in the outcome of trying the current name.
    pub fn step(&mut self, outcome: FileOutcome) -> (step: FileStep)
        ensures
            step == file_step(old(self).attempt(), outcome),
            final(self).file_name() == old(self).file_name(),
            final(self).attempt() == old(self).attempt() + (if step == FileStep::TryNext {
                1nat
            } else {
                0nat
            }),
            final(self).attempt() < NUMBER_OF_SUBTITLES,
    {
        proof {
            use_type_invariant(&*self);
        }
        match outcome {
            FileOutcome::Opened { len: 0 } => FileStep::Keep,
            _ => {
                if self.attempt + 1 < NUMBER_OF_SUBTITLES {
                    self.attempt = self.attempt + 1;
                    FileStep::TryNext
                } else {
                    FileStep::GiveUp
                }
            },
        }
    }
}

/// The text of the only error of creating an output file.
pub open spec fn gave_up_text() -> Seq<char> {
    "Giving up after "@ + crate::text::decimal(NUMBER_OF_SUBTITLES as nat)
        + " tries to create output files. Is there any problem with the output volume?"@
}

/// The text of the only error of creating an output file.
pub fn gave_up_message() -> (text: String)
    ensures
        text@ == gave_up_text(),
{
    let mut text = "Giving up after ".to_owned();
    append_decimal(&mut text, NUMBER_OF_SUBTITLES);
    text.append(" tries to create output files. Is there any problem with the output volume?");
    text
}

/// The attempt whose file a search keeps, if `outcomes` are the outcomes of its attempts in turn
/// and it has made `attempt` attempts already.
pub open spec fn kept_attempt(attempt: nat, outcomes: Seq<FileOutcome>) -> Option<nat>
    decreases NUMBER_OF_SUBTITLES - attempt,
{
    if attempt >= NUMBER_OF_SUBTITLES {
        None
    } else {
        match file_step(attempt, outcomes[attempt as int]) {
            FileStep::Keep => Some(attempt),
            FileStep::TryNext => kept_attempt(attempt + 1, outcomes),
            FileStep::GiveUp => None,
        }
    }
}

/// No two attempts for one file try the same name.
pub proof fn candidates_differ(file_name: Seq<char>, a: nat, b: nat)
    requires
        a != b,
    ensures
        candidate_name(file_name, a) != candidate_name(file_name, b),
{
    let da = crate::text::decimal(a);
    let db = crate::text::decimal(b);
    let front = file_name + "_"@;
    reveal_strlit("_");
    if a != 0 && b != 0 && candidate_name(file_name, a) == candidate_name(file_name, b) {
        let n = front.len() as int;
        assert(da =~= (front + da).skip(n));
        assert(db =~= (front + db).skip(n));
        crate::text::decimal_injective(a, b);
    }
}

/// A search keeps the first file that it can open and finds empty, so it never writes into a file
/// that already holds something, and it gives up only if all its names fail.
pub proof fn first_usable_is_kept(outcomes: Seq<FileOutcome>)
    requires
        outcomes.len() == NUMBER_OF_SUBTITLES,
    ensures
        forall|k: nat|
            k < NUMBER_OF_SUBTITLES && is_usable(#[trigger] outcomes[k as int]) && (forall|j: nat|
                j < k ==> !is_usable(#[trigger] outcomes[j as int])) ==> kept_attempt(0, outcomes)
                == Some(k),
        (forall|j: nat| j < NUMBER_OF_SUBTITLES ==> !is_usable(#[trigger] outcomes[j as int]))
            <==> kept_attempt(0, outcomes) is None,
        kept_attempt(0, outcomes) matches Some(k) ==> k < NUMBER_OF_SUBTITLES && is_usable(
            outcomes[k as int],
        ) && (forall|j: nat| j < k ==> !is_usable(#[trigger] outcomes[j as int])),
{
    kept_from(0, outcomes);
}

proof fn kept_from(attempt: nat, outcomes: Seq<FileOutcome>)
    requires
        attempt <= NUMBER_OF_SUBTITLES,
    ensures
        match kept_attempt(attempt, outcomes) {
            Some(k) => {
                &&& attempt <= k < NUMBER_OF_SUBTITLES
                &&& is_usable(outcomes[k as int])
                &&& forall|j: nat| attempt <= j < k ==> !is_usable(#[trigger] outcomes[j as int])
            },
            None => forall|j: nat|
                attempt <= j < NUMBER_OF_SUBTITLES ==> !is_usable(#[trigger] outcomes[j as int]),
        },
    decreases NUMBER_OF_SUBTITLES - attempt,
{
    if attempt < NUMBER_OF_SUBTITLES {
        kept_from(attempt + 1, outcomes);
    }
}

/// The name of the file that is created, or the text of the error, if `made` tells whether the
/// folder could be made and `outcomes` are the outcomes of the attempts in turn.
pub open spec fn creation(made: bool, file_name: Seq<char>, outcomes: Seq<FileOutcome>) -> Result<
    Seq<char>,
    Seq<char>,
> {
    match (made, kept_attempt(0, outcomes)) {
        (true, Some(attempt)) => Ok(candidate_name(file_name, attempt)),
        _ => Err(gave_up_text()),
    }
}

/// Whatever keeps a file from being created, the folder that cannot be made included, the error is
/// that of giving up. With the folder in place it comes exactly if all names fail.
pub proof fn giving_up_is_the_only_failure(
    made: bool,
    file_name: Seq<char>,
    outcomes: Seq<FileOutcome>,
)
    requires
        outcomes.len() == NUMBER_OF_SUBTITLES,
    ensures
        creation(made, file_name, outcomes) matches Err(text) ==> text == gave_up_text(),
        !made ==> creation(made, file_name, outcomes) is Err,
        made ==> (creation(made, file_name, outcomes) is Err <==> forall|j: nat|
            j < NUMBER_OF_SUBTITLES ==> !is_usable(#[trigger] outcomes[j as int])),
{
    first_usable_is_kept(outcomes);
}

/// The file of an attempt.
pub open spec fn candidate_file(
    file_name: Seq<char>,
    extension: Seq<char>,
    attempt: nat,
) -> Seq<char> {
    with_extension(candidate_name(file_name, attempt), extension)
}

/// What becomes of an attempt in a folder that can be written to, given the lengths of the files in
/// it: a file that is missing is made, and is empty.
pub open spec fn outcome_in(folder: Map<Seq<char>, u64>, file: Seq<char>) -> FileOutcome {
    FileOutcome::Opened {
        len: if folder.contains_key(file) {
            folder[file]
        } else {
            0
        },
    }
}

/// What becomes of all attempts in a folder.
pub open spec fn outcomes_in(
    folder: Map<Seq<char>, u64>,
    file_name: Seq<char>,
    extension: Seq<char>,
) -> Seq<FileOutcome> {
    Seq::new(
        NUMBER_OF_SUBTITLES as nat,
        |k: int| outcome_in(folder, candidate_file(file_name, extension, k as nat)),
    )
}

/// The file that is created in a folder, if any.
pub open spec fn created_in(
    folder: Map<Seq<char>, u64>,
    file_name: Seq<char>,
    extension: Seq<char>,
) -> Option<Seq<char>> {
    match kept_attempt(0, outcomes_in(folder, file_name, extension)) {
        Some(attempt) => Some(candidate_file(file_name, extension, attempt)),
        None => None,
    }
}

/// The folder after one creation for each of the given lengths, with that much written to each file
/// that was created.
pub open spec fn folder_after(
    file_name: Seq<char>,
    extension: Seq<char>,
    lengths: Seq<u64>,
) -> Map<Seq<char>, u64>
    decreases lengths.len(),
{
    if lengths.len() == 0 {
        Map::empty()
    } else {
        let before = folder_after(file_name, extension, lengths.drop_last());
        match created_in(before, file_name, extension) {
            Some(file) => before.insert(file, lengths.last()),
            None => before,
        }
    }
}

/// A creation that follows another one, with nothing written in between, takes the same file, which
/// is still empty.
pub proof fn an_empty_file_is_taken_again(
    folder: Map<Seq<char>, u64>,
    file_name: Seq<char>,
    extension: Seq<char>,
)
    requires
        created_in(folder, file_name, extension) is Some,
    ensures
        ({
            let file = created_in(folder, file_name, extension)->0;
            let after = folder.insert(file, 0);
            &&& created_in(after, file_name, extension) == Some(file)
            &&& outcome_in(after, file) == (FileOutcome::Opened { len: 0 })
        }),
{
    let before = outcomes_in(folder, file_name, extension);
    kept_from(0, before);
    let attempt = kept_attempt(0, before)->0;
    let file = candidate_file(file_name, extension, attempt);
    let after = outcomes_in(folder.insert(file, 0), file_name, extension);
    assert forall|j: nat| j < attempt implies !is_usable(#[trigger] after[j as int]) by {
        assert(!is_usable(before[j as int]));
    }
    assert(is_usable(after[attempt as int]));
    first_usable_is_kept(after);
}

/// If the first name tried names a file, all names tried do.
pub proof fn candidates_name_files(file_name: Seq<char>, attempt: nat)
    requires
        names_a_file(file_name),
    ensures
        names_a_file(candidate_name(file_name, attempt)),
{
    if attempt > 0 {
        let candidate = candidate_name(file_name, attempt);
        let digits = crate::text::decimal(attempt);
        let tail = "_"@ + digits;
        reveal_strlit("_");
        crate::text::decimal_shape(attempt);
        assert(candidate =~= file_name + tail);
        assert(candidate.last() == digits[digits.len() - 1]);
        if candidate.contains('\\') {
            let i = choose|i: int| 0 <= i < candidate.len() && candidate[i] == '\\';
            if i < file_name.len() {
                assert(file_name[i] == '\\');
            } else if i > file_name.len() {
                assert(candidate[i] == digits[i - file_name.len() - 1]);
            }
        }
    }
}

/// Names without a dot stay different when an extension is set.
pub proof fn candidate_files_differ(
    file_name: Seq<char>,
    extension: Seq<char>,
    a: nat,
    b: nat,
)
    requires
        !file_name.contains('.'),
        extension.len() > 0,
        a != b,
    ensures
        candidate_file(file_name, extension, a) != candidate_file(file_name, extension, b),
{
    candidates_differ(file_name, a, b);
    plain_file(file_name, extension, a);
    plain_file(file_name, extension, b);
    let ca = candidate_name(file_name, a);
    let cb = candidate_name(file_name, b);
    let back = seq!['.'] + extension;
    if ca + back == cb + back {
        crate::text::middle_is_determined(Seq::empty(), ca, cb, back);
        assert(Seq::empty() + ca + back =~= ca + back);
        assert(Seq::empty() + cb + back =~= cb + back);
    }
}

/// The file of an attempt for a name without a dot is the name of the attempt, a dot and the
/// extension.
pub proof fn plain_file(file_name: Seq<char>, extension: Seq<char>, attempt: nat)
    requires
        !file_name.contains('.'),
        extension.len() > 0,
    ensures
        candidate_file(file_name, extension, attempt) == candidate_name(file_name, attempt) + (seq![
            '.',
        ] + extension),
{
    let candidate = candidate_name(file_name, attempt);
    reveal_strlit("_");
    crate::text::decimal_shape(attempt);
    assert forall|i: int| !crate::download::is_last_dot(candidate, i) by {
        if crate::download::is_last_dot(candidate, i) {
            if i < file_name.len() {
                assert(file_name[i] == candidate[i]);
                assert(file_name.contains(file_name[i]));
            } else if i > file_name.len() {
                let digits = crate::text::decimal(attempt);
                assert(candidate[i] == digits[i - file_name.len() - 1]);
            }
        }
    }
    assert(candidate_file(file_name, extension, attempt) =~= candidate + (seq!['.'] + extension));
}

/// Creations for one name without a dot, each followed by writing something, take one serial number
/// after the other: the first takes the name itself, the one after `n` others the serial number
/// `n`, and none is left after the last serial number.
pub proof fn serial_numbers_are_taken_in_turn(
    file_name: Seq<char>,
    extension: Seq<char>,
    lengths: Seq<u64>,
)
    requires
        !file_name.contains('.'),
        extension.len() > 0,
        forall|i: int| 0 <= i < lengths.len() ==> #[trigger] lengths[i] > 0,
    ensures
        created_in(folder_after(file_name, extension, lengths), file_name, extension) == (
        if lengths.len() < NUMBER_OF_SUBTITLES {
            Some(candidate_file(file_name, extension, lengths.len()))
        } else {
            None
        }),
    decreases lengths.len(), 1int,
{
    taken_files(file_name, extension, lengths);
    let folder = folder_after(file_name, extension, lengths);
    let outcomes = outcomes_in(folder, file_name, extension);
    let n = lengths.len();
    assert forall|j: nat| j < NUMBER_OF_SUBTITLES implies is_usable(
        #[trigger] outcomes[j as int],
    ) == (j >= n) by {
        assert(folder.contains_key(candidate_file(file_name, extension, j)) == (j < n));
    }
    first_usable_is_kept(outcomes);
    if n < NUMBER_OF_SUBTITLES {
        assert(is_usable(outcomes[n as int]));
    }
}

proof fn taken_files(file_name: Seq<char>, extension: Seq<char>, lengths: Seq<u64>)
    requires
        !file_name.contains('.'),
        extension.len() > 0,
        forall|i: int| 0 <= i < lengths.len() ==> #[trigger] lengths[i] > 0,
    ensures
        ({
            let folder = folder_after(file_name, extension, lengths);
            forall|j: nat|
                j < NUMBER_OF_SUBTITLES ==> {
                    let file = #[trigger] candidate_file(file_name, extension, j);
                    &&& folder.contains_key(file) <==> j < lengths.len()
                    &&& folder.contains_key(file) ==> folder[file] > 0
                }
        }),
    decreases lengths.len(), 0int,
{
    if lengths.len() > 0 {
        let front = lengths.drop_last();
        assert forall|i: int| 0 <= i < front.len() implies #[trigger] front[i] > 0 by {
            assert(front[i] == lengths[i]);
        }
        taken_files(file_name, extension, front);
        serial_numbers_are_taken_in_turn(file_name, extension, front);
        assert(lengths[lengths.len() - 1] > 0);
        let folder = folder_after(file_name, extension, lengths);
        assert forall|j: nat| j < NUMBER_OF_SUBTITLES implies {
            let file = #[trigger] candidate_file(file_name, extension, j);
            &&& folder.contains_key(file) <==> j < lengths.len()
            &&& folder.contains_key(file) ==> folder[file] > 0
        } by {
            if j != front.len() {
                candidate_files_differ(file_name, extension, j, front.len());
            }
        }
    }
}

/// The separators of the parts of a path are the slash and the backslash.
pub proof fn separators_are_slashes(text: Seq<char>)
    ensures
        has_no_separator(text) <==> !text.contains('/') && !text.contains('\\'),
{
    if !text.contains('/') && !text.contains('\\') {
        assert forall|i: int| 0 <= i < text.len() implies #[trigger] text[i] != '/' && text[i]
            != '\\' by {
            assert(text.contains(text[i]));
        }
    }
}

/// Which names without a slash name files: all but the empty one, the two that stand for folders,
/// those with a backslash, and drive letters with nothing or a dot behind them.
pub proof fn ordinary_names_are_files(name: Seq<char>)
    requires
        !name.contains('/'),
    ensures
        names_a_file(name) <==> {
            &&& name != Seq::<char>::empty()
            &&& name != seq!['.']
            &&& name != seq!['.', '.']
            &&& !name.contains('\\')
            &&& !(name.len() >= 2 && name[1] == ':' && (name.len() == 2 || name[2] == '.'))
        },
{
    let len = name.len() as int;
    assert forall|i: int| 0 <= i < len implies name[i] != '/' by {
        assert(name.contains(name[i]));
    }
    if len == 1 && name[0] == '.' {
        assert(name =~= seq!['.']);
    }
    if len == 2 && name[0] == '.' && name[1] == '.' {
        assert(name =~= seq!['.', '.']);
    }
    if len == 0 {
        assert(name =~= Seq::<char>::empty());
    }
    if names_a_file(name) {
        assert(seq!['.'][0] == '.');
        assert(seq!['.', '.'][0] == '.' && seq!['.', '.'][1] == '.');
    }
}

/// Which paths with a slash name files: those whose last part is not empty and stands for no folder,
/// unless there is a backslash, a double slash in front, or a drive letter with nothing or a dot
/// behind it.
pub proof fn paths_are_files_by_their_last_part(folder: Seq<char>, name: Seq<char>)
    requires
        !name.contains('/'),
    ensures
        ({
            let path = folder.push('/') + name;
            names_a_file(path) <==> {
                &&& name != Seq::<char>::empty()
                &&& name != seq!['.']
                &&& name != seq!['.', '.']
                &&& !folder.contains('\\')
                &&& !name.contains('\\')
                &&& !(path[0] == '/' && path[1] == '/')
                &&& !(path[1] == ':' && (path.len() == 2 || path[2] == '.'))
            }
        }),
{
    let path = folder.push('/') + name;
    let n = folder.len() as int;
    let len = name.len() as int;
    assert(path[n] == '/');
    assert forall|i: int| 0 <= i < len implies name[i] != '/' && path[n + 1 + i] == name[i] by {
        assert(name.contains(name[i]));
    }
    if path.contains('\\') {
        let i = choose|i: int| 0 <= i < path.len() && path[i] == '\\';
        if i < n {
            assert(folder[i] == '\\');
        } else {
            assert(name[i - n - 1] == '\\');
        }
    }
    if folder.contains('\\') {
        let i = choose|i: int| 0 <= i < folder.len() && folder[i] == '\\';
        assert(path[i] == '\\');
    }
    if name.contains('\\') {
        let i = choose|i: int| 0 <= i < name.len() && name[i] == '\\';
        assert(path[n + 1 + i] == '\\');
    }
    if len == 0 {
        assert(name =~= Seq::<char>::empty());
    } else {
        assert(path[path.len() - 1] == name[len - 1]);
        if len == 1 {
            assert(path[path.len() - 2] == '/');
            if name[0] == '.' {
                assert(name =~= seq!['.']);
            }
        } else {
            assert(path[path.len() - 2] == name[len - 2]);
            if len == 2 {
                assert(path[path.len() - 3] == '/');
                if name[0] == '.' && name[1] == '.' {
                    assert(name =~= seq!['.', '.']);
                }
            } else {
                assert(path[path.len() - 3] == name[len - 3]);
            }
        }
    }
}

/// Setting an extension replaces the one that is there: what follows the last dot of the file name,
/// unless that dot is its first character. An empty one takes it away, with its dot.
pub proof fn extensions_are_replaced(front: Seq<char>, before: Seq<char>, extension: Seq<char>)
    requires
        front.len() > 0,
        front.last() != '/',
        !before.contains('.'),
        !before.contains('/'),
    ensures
        extension.len() > 0 ==> with_extension(front.push('.') + before, extension) == front.push(
            '.',
        ) + extension,
        extension.len() == 0 ==> with_extension(front.push('.') + before, extension) == front,
{
    let path = front.push('.') + before;
    let n = front.len() as int;
    assert(path[n] == '.' && path[n - 1] == front.last());
    assert forall|j: int| n < j < path.len() implies path[j] != '.' && path[j] != '/' by {
        assert(path[j] == before[j - n - 1]);
        assert(before.contains(before[j - n - 1]));
    }
    assert(is_extension_dot(path, n));
    let dot = choose|i: int| is_extension_dot(path, i);
    crate::download::last_dot_is_unique(path, n, dot);
    assert(path.take(n) =~= front);
}

/// Setting an extension where there is none, that is, where the file name has no dot behind its
/// first character, puts it behind the path and a dot, and leaves the path whole.
pub proof fn extensions_are_added(folder: Seq<char>, name: Seq<char>, extension: Seq<char>)
    requires
        folder.len() > 0 ==> folder.last() == '/',
        !name.contains('/'),
        forall|i: int| 0 < i < name.len() ==> #[trigger] name[i] != '.',
    ensures
        extension.len() > 0 ==> with_extension(folder + name, extension) == (folder + name).push(
            '.',
        ) + extension,
        extension.len() == 0 ==> with_extension(folder + name, extension) == folder + name,
{
    let path = folder + name;
    let n = folder.len() as int;
    assert forall|i: int| !is_extension_dot(path, i) by {
        if is_extension_dot(path, i) {
            if i < n - 1 {
                assert(path[n - 1] == '/');
            } else if i < n {
                assert(path[i] == folder.last());
            } else if i == n {
                if n > 0 {
                    assert(path[i - 1] == folder.last());
                }
            } else {
                assert(path[i] == name[i - n]);
            }
        }
    }
}

/// The first attempt for a file tries its whole name, and attempt `k` the whole name with a low line
/// and the digits of `k` behind it. Attempts for different files try different names.
pub proof fn attempts_number_the_whole_name(file_name: Seq<char>, other: Seq<char>, attempt: nat)
    ensures
        candidate_name(file_name, 0) == file_name,
        attempt > 0 ==> file_name.is_prefix_of(candidate_name(file_name, attempt)),
        attempt > 0 ==> candidate_name(file_name, attempt)[file_name.len() as int] == '_',
        attempt > 0 ==> candidate_name(file_name, attempt).skip(file_name.len() as int + 1)
            == crate::text::decimal(attempt),
        file_name != other ==> candidate_name(file_name, attempt) != candidate_name(other, attempt),
{
    reveal_strlit("_");
    let d = crate::text::decimal(attempt);
    let back = "_"@ + d;
    let empty = Seq::<char>::empty();
    if attempt > 0 {
        let candidate = candidate_name(file_name, attempt);
        assert(candidate =~= file_name + back);
        crate::text::ends_of_sum(file_name, back);
        assert(candidate.skip(file_name.len() as int + 1) =~= d);
        if candidate == candidate_name(other, attempt) {
            assert(candidate =~= empty + file_name + back);
            assert(candidate_name(other, attempt) =~= empty + other + back);
            crate::text::middle_is_determined(empty, file_name, other, back);
        }
    }
}

/// Only an open file without a byte in it is kept. Otherwise the next name is tried, up to the
/// serial number 99, and no more.
pub proof fn only_empty_files_are_kept(attempt: nat, outcome: FileOutcome)
    ensures
        file_step(attempt, outcome) is Keep <==> (outcome matches FileOutcome::Opened { len } && len
            == 0),
        file_step(attempt, outcome) is TryNext <==> attempt < 99 && !(
        outcome matches FileOutcome::Opened { len } && len == 0),
        file_step(attempt, outcome) is GiveUp <==> attempt >= 99 && !(
        outcome matches FileOutcome::Opened { len } && len == 0),
{
}

} // verus!
