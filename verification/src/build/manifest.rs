//! The install manifest of the meta-build tool: the lines that report which
//! file was installed where, and the libraries among those files.

use crate::build::{BuildResult, LibraryPathView, LibraryType, LibraryView, LinkSearchKind, ResultView};
use crate::text::{
    chars_equal, find, find_from, from_chars, last_index_of, lines_of, rfind_char, slice_chars,
    split_lines, starts_with, to_chars, views,
};
use vstd::prelude::*;
use vstd::string::StringExecFns;

verus! {

/// What a line that reports an installation begins with.
pub open spec fn install_marker() -> Seq<char> {
    "Installing "@
}

/// What stands between the installed file and the directory it went to.
pub open spec fn pair_separator() -> Seq<char> {
    " to "@
}

/// Whether a line reports an installation.
pub open spec fn is_install_line(line: Seq<char>) -> bool {
    install_marker().is_prefix_of(line)
}

/// A line that reports an installation, taken apart.
pub enum InstallLine {
    /// The line names one file and one directory.
    Pair { source: Seq<char>, target: Seq<char> },
    /// The separator occurs more than once.
    TooManyParts,
    /// The separator does not occur.
    MissingPart,
}

/// What follows the marker on a line that reports an installation, taken
/// apart at the separator.
pub open spec fn parse_install_line(line: Seq<char>) -> InstallLine {
    let payload = line.subrange(install_marker().len() as int, line.len() as int);
    match find_from(payload, pair_separator(), 0) {
        None => InstallLine::MissingPart,
        Some(first) => match find_from(payload, pair_separator(), first + pair_separator().len()) {
            Some(_) => InstallLine::TooManyParts,
            None => InstallLine::Pair {
                source: payload.subrange(0, first),
                target: payload.subrange(first + pair_separator().len(), payload.len() as int),
            },
        },
    }
}

/// The detail of the failure on a line in which the separator occurs more
/// than once.
pub open spec fn too_many_parts_detail(line: Seq<char>) -> Seq<char> {
    "Meson line \""@ + line + "\" contains more than one \" to \" parts."@
}

/// The detail of the failure on a line in which the separator does not occur.
pub open spec fn missing_part_detail(line: Seq<char>) -> Seq<char> {
    "Meson line \""@ + line + "\" misses the key or value."@
}

/// Installed files with the directories they went to, each file once.
pub type EntriesView = Seq<(Seq<char>, Seq<char>)>;

/// The first position at or after `from` at which `entries` holds `source`.
pub open spec fn entry_position(entries: EntriesView, source: Seq<char>, from: int) -> Option<int>
    decreases entries.len() - from,
{
    if from < 0 || from >= entries.len() {
        None
    } else if entries[from].0 == source {
        Some(from)
    } else {
        entry_position(entries, source, from + 1)
    }
}

/// The entries with `source` reported as installed to `target`: a file that
/// was reported before keeps its place and takes the new directory.
pub open spec fn with_entry(entries: EntriesView, source: Seq<char>, target: Seq<char>) -> EntriesView {
    match entry_position(entries, source, 0) {
        Some(place) => entries.update(place, (source, target)),
        None => entries.push((source, target)),
    }
}

/// What the first `count` lines report as installed, or the detail of the
/// failure on the first line among them that cannot be taken apart.
pub open spec fn parse_manifest_lines(lines: Seq<Seq<char>>, count: int) -> Result<
    EntriesView,
    Seq<char>,
>
    decreases count,
{
    if count <= 0 {
        Ok(Seq::empty())
    } else {
        match parse_manifest_lines(lines, count - 1) {
            Err(detail) => Err(detail),
            Ok(entries) => {
                let line = lines[count - 1];
                if !is_install_line(line) {
                    Ok(entries)
                } else {
                    match parse_install_line(line) {
                        InstallLine::Pair { source, target } => Ok(
                            with_entry(entries, source, target),
                        ),
                        InstallLine::TooManyParts => Err(too_many_parts_detail(line)),
                        InstallLine::MissingPart => Err(missing_part_detail(line)),
                    }
                }
            },
        }
    }
}

/// What the output of the tool's install action reports as installed.
pub open spec fn parse_manifest(stdout: Seq<char>) -> Result<EntriesView, Seq<char>> {
    parse_manifest_lines(lines_of(stdout), lines_of(stdout).len() as int)
}

/// An installed file and the directory it went to.
#[derive(Debug)]
pub struct InstalledFile {
    pub source: String,
    pub target: String,
}

/// The views of a vector of installed files.
pub open spec fn entries_view(files: Seq<InstalledFile>) -> EntriesView {
    Seq::new(files.len(), |i: int| (files[i].source@, files[i].target@))
}

/// A line taken apart, as the parser holds it.
enum ParsedLine {
    Pair(Vec<char>, Vec<char>),
    TooManyParts,
    MissingPart,
}

impl ParsedLine {
    spec fn shape(self) -> InstallLine {
        match self {
            ParsedLine::Pair(source, target) => InstallLine::Pair { source: source@, target: target@ },
            ParsedLine::TooManyParts => InstallLine::TooManyParts,
            ParsedLine::MissingPart => InstallLine::MissingPart,
        }
    }
}

/// Takes apart a line that reports an installation.
fn split_install_line(line: &Vec<char>, marker: &Vec<char>, separator: &Vec<char>) -> (parsed:
    ParsedLine)
    requires
        marker@ == install_marker(),
        separator@ == pair_separator(),
        is_install_line(line@),
    ensures
        parsed.shape() == parse_install_line(line@),
{
    let payload = slice_chars(line, marker.len(), line.len());
    match find(&payload, separator, 0) {
        None => ParsedLine::MissingPart,
        Some(first) => {
            proof {
                crate::text::lemma_find_from(payload@, separator@, 0);
            }
            let rest = first + separator.len();
            match find(&payload, separator, rest) {
                Some(_) => ParsedLine::TooManyParts,
                None => {
                    let source = slice_chars(&payload, 0, first);
                    let target = slice_chars(&payload, rest, payload.len());
                    ParsedLine::Pair(source, target)
                },
            }
        },
    }
}

/// Records that `source` was installed to `target`.
fn set_entry(files: &mut Vec<InstalledFile>, source: String, target: String)
    ensures
        entries_view(final(files)@) == with_entry(entries_view(old(files)@), source@, target@),
{
    let ghost before = entries_view(files@);
    let mut place: usize = 0;
    while place < files.len()
        invariant
            place <= files.len(),
            files@ == old(files)@,
            before == entries_view(files@),
            entry_position(before, source@, 0) == entry_position(before, source@, place as int),
        ensures
            place <= files.len(),
            files@ == old(files)@,
            place < files.len() ==> entry_position(before, source@, 0) == Some(place as int),
            place == files.len() ==> entry_position(before, source@, 0) is None,
        decreases files.len() - place,
    {
        assert(before[place as int].0 == files@[place as int].source@);
        if files[place].source == source {
            break ;
        }
        place += 1;
    }
    if place < files.len() {
        files.set(place, InstalledFile { source, target });
        assert(entries_view(files@) =~= before.update(place as int, (source@, target@)));
    } else {
        files.push(InstalledFile { source, target });
        assert(entries_view(files@) =~= before.push((source@, target@)));
    }
}

/// What the output of the tool's install action reports as installed: each
/// line that begins with the marker names a file and, after the separator,
/// the directory it went to. A file that is reported twice keeps its first
/// place and its last directory. A line with the marker in which the
/// separator occurs more than once, or not at all, is a failure; its detail
/// quotes the line.
pub fn parse_install_manifest(stdout: &str) -> (parsed: Result<Vec<InstalledFile>, String>)
    ensures
        match parsed {
            Ok(files) => parse_manifest(stdout@) == Ok::<EntriesView, Seq<char>>(
                entries_view(files@),
            ),
            Err(detail) => parse_manifest(stdout@) == Err::<EntriesView, Seq<char>>(detail@),
        },
{
    let text = to_chars(stdout);
    let lines = split_lines(&text);
    let marker = to_chars("Installing ");
    let separator = to_chars(" to ");
    let mut files: Vec<InstalledFile> = Vec::new();
    let ghost all = lines_of(stdout@);
    let mut i: usize = 0;
    assert(entries_view(files@) =~= Seq::empty());
    while i < lines.len()
        invariant
            i <= lines.len(),
            all == views(lines@),
            all == lines_of(stdout@),
            marker@ == install_marker(),
            separator@ == pair_separator(),
            parse_manifest_lines(all, i as int) == Ok::<EntriesView, Seq<char>>(entries_view(files@)),
        decreases lines.len() - i,
    {
        let line = &lines[i];
        assert(line@ == all[i as int]);
        if starts_with(line, &marker) {
            match split_install_line(line, &marker, &separator) {
                ParsedLine::Pair(source_chars, target_chars) => {
                    let source = from_chars(&source_chars, 0, source_chars.len());
                    let target = from_chars(&target_chars, 0, target_chars.len());
                    assert(source@ == source_chars@);
                    assert(target@ == target_chars@);
                    set_entry(&mut files, source, target);
                    assert(parse_manifest_lines(all, i + 1) == Ok::<EntriesView, Seq<char>>(
                        entries_view(files@),
                    ));
                },
                ParsedLine::TooManyParts => {
                    let mut detail = "Meson line \"".to_owned();
                    let quoted = from_chars(line, 0, line.len());
                    detail.append(quoted.as_str());
                    detail.append("\" contains more than one \" to \" parts.");
                    proof {
                        assert(quoted@ == line@);
                        assert(parse_manifest_lines(all, i + 1) == Err::<EntriesView, Seq<char>>(
                            detail@,
                        ));
                        lemma_first_failure_stands(all, i + 1, all.len() as int);
                    }
                    return Err(detail);
                },
                ParsedLine::MissingPart => {
                    let mut detail = "Meson line \"".to_owned();
                    let quoted = from_chars(line, 0, line.len());
                    detail.append(quoted.as_str());
                    detail.append("\" misses the key or value.");
                    proof {
                        assert(quoted@ == line@);
                        assert(parse_manifest_lines(all, i + 1) == Err::<EntriesView, Seq<char>>(
                            detail@,
                        ));
                        lemma_first_failure_stands(all, i + 1, all.len() as int);
                    }
                    return Err(detail);
                },
            }
        } else {
            assert(parse_manifest_lines(all, i + 1) == Ok::<EntriesView, Seq<char>>(
                entries_view(files@),
            ));
        }
        i += 1;
    }
    Ok(files)
}

/// A failure on an early line is the failure of the whole manifest.
pub proof fn lemma_first_failure_stands(lines: Seq<Seq<char>>, count: int, later: int)
    requires
        count <= later,
        parse_manifest_lines(lines, count) is Err,
    ensures
        parse_manifest_lines(lines, later) == parse_manifest_lines(lines, count),
    decreases later - count,
{
    if count < later {
        lemma_first_failure_stands(lines, count, later - 1);
    }
}

/// The last component of a path: what follows its last separator.
pub open spec fn file_name_of(path: Seq<char>) -> Seq<char> {
    match last_index_of(path, '/') {
        Some(place) => path.subrange(place + 1, path.len() as int),
        None => path,
    }
}

/// The extension of a path: what follows the last dot of its file name,
/// unless the name has no dot or only begins with one.
pub open spec fn extension_of(path: Seq<char>) -> Option<Seq<char>> {
    let name = file_name_of(path);
    match last_index_of(name, '.') {
        Some(place) => if place == 0 {
            None
        } else {
            Some(name.subrange(place + 1, name.len() as int))
        },
        None => None,
    }
}

/// The linkage of the libraries that carry an extension.
pub open spec fn library_kind_of(extension: Seq<char>) -> Option<LibraryType> {
    if extension == "a"@ || extension == "lib"@ {
        Some(LibraryType::Static)
    } else if extension == "so"@ || extension == "dll"@ {
        Some(LibraryType::Shared)
    } else {
        None
    }
}

/// An installed library, whose directory is still to be confirmed.
#[derive(Debug)]
pub struct LibraryCandidate {
    pub name: String,
    pub kind: LibraryType,
    pub target: String,
}

/// The content of a `LibraryCandidate`.
pub struct CandidateView {
    pub name: Seq<char>,
    pub kind: LibraryType,
    pub target: Seq<char>,
}

/// The views of a vector of candidates.
pub open spec fn candidates_view(candidates: Seq<LibraryCandidate>) -> Seq<CandidateView> {
    Seq::new(
        candidates.len(),
        |i: int|
            CandidateView {
                name: candidates[i].name@,
                kind: candidates[i].kind,
                target: candidates[i].target@,
            },
    )
}

/// The library that an installed file is, if its extension is that of a library.
pub open spec fn candidate_of(source: Seq<char>, target: Seq<char>) -> Option<CandidateView> {
    match extension_of(source) {
        None => None,
        Some(extension) => match library_kind_of(extension) {
            None => None,
            Some(kind) => Some(CandidateView { name: file_name_of(source), kind, target }),
        },
    }
}

/// The libraries among the first `count` installed files, in their order.
pub open spec fn candidates_of(entries: EntriesView, count: int) -> Seq<CandidateView>
    decreases count,
{
    if count <= 0 {
        Seq::empty()
    } else {
        let earlier = candidates_of(entries, count - 1);
        match candidate_of(entries[count - 1].0, entries[count - 1].1) {
            Some(candidate) => earlier.push(candidate),
            None => earlier,
        }
    }
}

/// The linkage of the libraries that carry `extension`.
fn library_kind(extension: &Vec<char>) -> (kind: Option<LibraryType>)
    ensures
        kind == library_kind_of(extension@),
{
    let a = to_chars("a");
    let lib = to_chars("lib");
    let so = to_chars("so");
    let dll = to_chars("dll");
    if chars_equal(extension, &a) || chars_equal(extension, &lib) {
        Some(LibraryType::Static)
    } else if chars_equal(extension, &so) || chars_equal(extension, &dll) {
        Some(LibraryType::Shared)
    } else {
        None
    }
}

/// The library that the file `source`, installed to `target`, is.
fn classify(source: &str, target: &str) -> (candidate: Option<LibraryCandidate>)
    ensures
        match candidate {
            Some(found) => candidate_of(source@, target@) == Some(
                CandidateView { name: found.name@, kind: found.kind, target: found.target@ },
            ),
            None => candidate_of(source@, target@) is None,
        },
{
    let path = to_chars(source);
    let name = match rfind_char(&path, '/') {
        Some(place) => slice_chars(&path, place + 1, path.len()),
        None => slice_chars(&path, 0, path.len()),
    };
    assert(name@ == file_name_of(source@)) by {
        crate::text::lemma_last_index_of(path@, '/');
        assert(path@.subrange(0, path@.len() as int) == path@);
    }
    match rfind_char(&name, '.') {
        None => None,
        Some(place) => {
            proof {
                crate::text::lemma_last_index_of(name@, '.');
            }
            if place == 0 {
                None
            } else {
                let extension = slice_chars(&name, place + 1, name.len());
                match library_kind(&extension) {
                    None => None,
                    Some(kind) => {
                        let name_text = from_chars(&name, 0, name.len());
                        assert(name_text@ == name@);
                        Some(LibraryCandidate { name: name_text, kind, target: target.to_owned() })
                    },
                }
            }
        },
    }
}

/// The libraries among the installed files, in their order: the files whose
/// extension is that of a static or of a shared library.
pub fn library_candidates(files: &Vec<InstalledFile>) -> (candidates: Vec<LibraryCandidate>)
    ensures
        candidates_view(candidates@) == candidates_of(entries_view(files@), files@.len() as int),
{
    let mut candidates: Vec<LibraryCandidate> = Vec::new();
    let ghost entries = entries_view(files@);
    let mut i: usize = 0;
    assert(candidates_view(candidates@) =~= Seq::empty());
    while i < files.len()
        invariant
            i <= files.len(),
            entries == entries_view(files@),
            candidates_view(candidates@) == candidates_of(entries, i as int),
        decreases files.len() - i,
    {
        assert(entries[i as int] == (files@[i as int].source@, files@[i as int].target@));
        let ghost earlier = candidates_view(candidates@);
        match classify(files[i].source.as_str(), files[i].target.as_str()) {
            Some(found) => {
                let ghost view = CandidateView {
                    name: found.name@,
                    kind: found.kind,
                    target: found.target@,
                };
                candidates.push(found);
                assert(candidates_view(candidates@) =~= earlier.push(view));
            },
            None => {},
        }
        i += 1;
    }
    candidates
}

/// The directories of the candidates, in their order.
pub open spec fn candidate_targets(candidates: Seq<CandidateView>) -> Seq<Seq<char>> {
    Seq::new(candidates.len(), |i: int| candidates[i].target)
}

/// The directories of the candidates, in their order.
pub fn targets_of(candidates: &Vec<LibraryCandidate>) -> (targets: Vec<String>)
    ensures
        crate::build::string_views(targets@) == candidate_targets(candidates_view(candidates@)),
{
    let mut targets: Vec<String> = Vec::new();
    let mut i: usize = 0;
    while i < candidates.len()
        invariant
            i <= candidates.len(),
            targets@.len() == i,
            forall|j: int| 0 <= j < i ==> (#[trigger] targets@[j])@ == candidates@[j].target@,
        decreases candidates.len() - i,
    {
        targets.push(candidates[i].target.clone());
        i += 1;
    }
    assert(crate::build::string_views(targets@) =~= candidate_targets(candidates_view(candidates@)));
    targets
}

/// The result once the first `count` candidates are recorded: each one whose
/// directory was confirmed adds its library and, as a native search path,
/// its directory. A candidate without a confirmation counts as unconfirmed.
pub open spec fn recorded(
    result: ResultView,
    candidates: Seq<CandidateView>,
    confirmed: Seq<bool>,
    count: int,
) -> ResultView
    decreases count,
{
    if count <= 0 {
        result
    } else {
        let earlier = recorded(result, candidates, confirmed, count - 1);
        if count - 1 < confirmed.len() && confirmed[count - 1] {
            ResultView {
                libraries: earlier.libraries.push(
                    LibraryView {
                        name: candidates[count - 1].name,
                        kind: Some(candidates[count - 1].kind),
                    },
                ),
                library_paths: earlier.library_paths.push(
                    LibraryPathView {
                        path: candidates[count - 1].target,
                        kind: LinkSearchKind::Native,
                    },
                ),
                emits: earlier.emits,
            }
        } else {
            earlier
        }
    }
}

/// Adds to `result` each candidate whose directory was confirmed.
pub fn record_libraries(
    result: &mut BuildResult,
    candidates: &Vec<LibraryCandidate>,
    confirmed: &Vec<bool>,
)
    ensures
        final(result)@ == recorded(
            old(result)@,
            candidates_view(candidates@),
            confirmed@,
            candidates@.len() as int,
        ),
{
    let ghost view = candidates_view(candidates@);
    let mut i: usize = 0;
    while i < candidates.len()
        invariant
            i <= candidates.len(),
            view == candidates_view(candidates@),
            result@ == recorded(old(result)@, view, confirmed@, i as int),
        decreases candidates.len() - i,
    {
        assert(view[i as int].name == candidates@[i as int].name@);
        assert(view[i as int].target == candidates@[i as int].target@);
        assert(view[i as int].kind == candidates@[i as int].kind);
        if i < confirmed.len() && confirmed[i] {
            result.add_library(candidates[i].name.clone(), Some(candidates[i].kind));
            result.add_library_path(candidates[i].target.clone(), Some(LinkSearchKind::Native));
        }
        i += 1;
    }
}

/// Recording candidates only adds to a result.
pub proof fn lemma_recorded_extends(
    result: ResultView,
    candidates: Seq<CandidateView>,
    confirmed: Seq<bool>,
    count: int,
)
    ensures
        recorded(result, candidates, confirmed, count).extends(result),
    decreases count,
{
    if count > 0 {
        lemma_recorded_extends(result, candidates, confirmed, count - 1);
    }
}

/// A line with the marker that cannot be taken apart makes the whole
/// manifest fail, and the failure quotes a line that cannot be taken apart:
/// the first such line.
pub proof fn law_malformed_line_fails(lines: Seq<Seq<char>>, i: int)
    requires
        0 <= i < lines.len(),
        is_install_line(lines[i]),
        !(parse_install_line(lines[i]) is Pair),
    ensures
        parse_manifest_lines(lines, lines.len() as int) is Err,
        exists|j: int|
            0 <= j <= i && is_install_line(#[trigger] lines[j]) && (parse_manifest_lines(
                lines,
                lines.len() as int,
            )->Err_0 == too_many_parts_detail(lines[j]) && parse_install_line(lines[j])
                is TooManyParts || parse_manifest_lines(lines, lines.len() as int)->Err_0
                == missing_part_detail(lines[j]) && parse_install_line(lines[j]) is MissingPart),
{
    lemma_failure_within(lines, i + 1);
    lemma_first_failure_stands(lines, i + 1, lines.len() as int);
}

/// Where the first `count` lines fail, the failure quotes one of them that
/// cannot be taken apart; and they fail where one of them cannot be taken apart.
proof fn lemma_failure_within(lines: Seq<Seq<char>>, count: int)
    requires
        0 <= count <= lines.len(),
    ensures
        parse_manifest_lines(lines, count) is Err ==> exists|j: int|
            0 <= j < count && is_install_line(#[trigger] lines[j]) && (parse_manifest_lines(
                lines,
                count,
            )->Err_0 == too_many_parts_detail(lines[j]) && parse_install_line(lines[j])
                is TooManyParts || parse_manifest_lines(lines, count)->Err_0
                == missing_part_detail(lines[j]) && parse_install_line(lines[j]) is MissingPart),
        (exists|j: int|
            0 <= j < count && is_install_line(#[trigger] lines[j]) && !(parse_install_line(lines[j])
                is Pair)) ==> parse_manifest_lines(lines, count) is Err,
    decreases count,
{
    if count > 0 {
        lemma_failure_within(lines, count - 1);
        let line = lines[count - 1];
        if parse_manifest_lines(lines, count - 1) is Ok && is_install_line(line) && !(
        parse_install_line(line) is Pair) {
            assert(is_install_line(lines[count - 1]));
        }
    }
}

} // verus!
