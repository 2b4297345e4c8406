//! What a build produces: libraries, library search paths and lines for
//! the host build system.

use crate::build::{library_type_text, link_search_kind_text, LibraryType, LinkSearchKind};
use vstd::prelude::*;
use vstd::string::StringExecFns;

verus! {

/// A produced library: its file name and, where known, its linkage.
#[derive(Debug)]
pub struct BuildLibrary {
    name: String,
    kind: Option<LibraryType>,
}

/// The content of a `BuildLibrary`.
pub struct LibraryView {
    pub name: Seq<char>,
    pub kind: Option<LibraryType>,
}

impl View for BuildLibrary {
    type V = LibraryView;

    closed spec fn view(&self) -> LibraryView {
        LibraryView { name: self.name@, kind: self.kind }
    }
}

/// How a library is named to the host build system.
pub open spec fn library_text(library: LibraryView) -> Seq<char> {
    match library.kind {
        Some(kind) => library_type_text(kind) + "="@ + library.name,
        None => library.name,
    }
}

impl BuildLibrary {
    pub fn name(&self) -> (text: &str)
        ensures
            text@ == self@.name,
    {
        self.name.as_str()
    }

    pub fn kind(&self) -> (kind: Option<LibraryType>)
        ensures
            kind == self@.kind,
    {
        self.kind
    }

    pub fn to_string(&self) -> (text: String)
        ensures
            text@ == library_text(self@),
    {
        match &self.kind {
            Some(kind) => {
                let mut text = kind.to_string();
                text.append("=");
                text.append(self.name.as_str());
                text
            },
            None => self.name.clone(),
        }
    }
}

/// A directory in which produced libraries are searched.
#[derive(Debug)]
pub struct BuildLibraryPath {
    path: String,
    kind: LinkSearchKind,
}

/// The content of a `BuildLibraryPath`.
pub struct LibraryPathView {
    pub path: Seq<char>,
    pub kind: LinkSearchKind,
}

impl View for BuildLibraryPath {
    type V = LibraryPathView;

    closed spec fn view(&self) -> LibraryPathView {
        LibraryPathView { path: self.path@, kind: self.kind }
    }
}

/// How a search path is named to the host build system.
pub open spec fn library_path_text(path: LibraryPathView) -> Seq<char> {
    if path.kind == LinkSearchKind::All {
        path.path
    } else {
        link_search_kind_text(path.kind) + "="@ + path.path
    }
}

impl BuildLibraryPath {
    pub fn path(&self) -> (text: &str)
        ensures
            text@ == self@.path,
    {
        self.path.as_str()
    }

    pub fn kind(&self) -> (kind: LinkSearchKind)
        ensures
            kind == self@.kind,
    {
        self.kind
    }

    pub fn to_string(&self) -> (text: String)
        ensures
            text@ == library_path_text(self@),
    {
        match self.kind {
            LinkSearchKind::All => self.path.clone(),
            _ => {
                let mut text = self.kind.to_string();
                text.append("=");
                text.append(self.path.as_str());
                text
            },
        }
    }
}

/// What a build has produced so far: libraries, library search paths and
/// free-form lines for the host build system. It only ever grows.
#[derive(Debug)]
pub struct BuildResult {
    libraries: Vec<BuildLibrary>,
    library_paths: Vec<BuildLibraryPath>,
    custom_compiler_emits: Vec<String>,
}

/// The content of a `BuildResult`.
pub struct ResultView {
    pub libraries: Seq<LibraryView>,
    pub library_paths: Seq<LibraryPathView>,
    pub emits: Seq<Seq<char>>,
}

impl ResultView {
    /// A result that holds nothing.
    pub open spec fn empty() -> ResultView {
        ResultView { libraries: Seq::empty(), library_paths: Seq::empty(), emits: Seq::empty() }
    }

    /// `self` holds everything that `earlier` holds, in the same places.
    pub open spec fn extends(self, earlier: ResultView) -> bool {
        &&& earlier.libraries.is_prefix_of(self.libraries)
        &&& earlier.library_paths.is_prefix_of(self.library_paths)
        &&& earlier.emits.is_prefix_of(self.emits)
    }
}

impl View for BuildResult {
    type V = ResultView;

    closed spec fn view(&self) -> ResultView {
        ResultView {
            libraries: Seq::new(self.libraries@.len(), |i: int| self.libraries@[i]@),
            library_paths: Seq::new(self.library_paths@.len(), |i: int| self.library_paths@[i]@),
            emits: Seq::new(
                self.custom_compiler_emits@.len(),
                |i: int| self.custom_compiler_emits@[i]@,
            ),
        }
    }
}

/// The search kind of a path that was added without one.
pub open spec fn search_kind_or_all(kind: Option<LinkSearchKind>) -> LinkSearchKind {
    match kind {
        Some(kind) => kind,
        None => LinkSearchKind::All,
    }
}

/// The lines that hand a result to the host build system: one per search
/// path, then one per library, then the free-form lines.
pub open spec fn cargo_lines_of(result: ResultView) -> Seq<Seq<char>> {
    Seq::new(
        result.library_paths.len(),
        |i: int| "cargo:rustc-link-search="@ + library_path_text(result.library_paths[i]),
    ) + Seq::new(
        result.libraries.len(),
        |i: int| "cargo:rustc-link-lib="@ + library_text(result.libraries[i]),
    ) + Seq::new(result.emits.len(), |i: int| "cargo:"@ + result.emits[i])
}

/// The views of a vector of strings.
pub open spec fn string_views(v: Seq<String>) -> Seq<Seq<char>> {
    Seq::new(v.len(), |i: int| v[i]@)
}

impl BuildResult {
    pub fn new() -> (result: Self)
        ensures
            result@ == (ResultView {
                libraries: Seq::empty(),
                library_paths: Seq::empty(),
                emits: Seq::empty(),
            }),
    {
        let result = BuildResult {
            libraries: Vec::new(),
            library_paths: Vec::new(),
            custom_compiler_emits: Vec::new(),
        };
        assert(result@.libraries =~= Seq::empty());
        assert(result@.library_paths =~= Seq::empty());
        assert(result@.emits =~= Seq::empty());
        result
    }

    pub fn add_library(&mut self, name: String, kind: Option<LibraryType>) -> (result: &mut Self)
        ensures
            result@ == (ResultView {
                libraries: old(self)@.libraries.push(LibraryView { name: name@, kind }),
                ..old(self)@
            }),
            *final(self) == *final(result),
    {
        self.libraries.push(BuildLibrary { name, kind });
        assert(self@.libraries =~= old(self)@.libraries.push(LibraryView { name: name@, kind }));
        self
    }

    pub fn libraries(&self) -> (libraries: &Vec<BuildLibrary>)
        ensures
            libraries@.len() == self@.libraries.len(),
            forall|i: int| 0 <= i < libraries@.len() ==> (#[trigger] libraries@[i])@ == self@.libraries[i],
    {
        &self.libraries
    }

    pub fn add_library_path(&mut self, path: String, kind: Option<LinkSearchKind>) -> (result:
        &mut Self)
        ensures
            result@ == (ResultView {
                library_paths: old(self)@.library_paths.push(
                    LibraryPathView { path: path@, kind: search_kind_or_all(kind) },
                ),
                ..old(self)@
            }),
            *final(self) == *final(result),
    {
        let kind = match kind {
            Some(kind) => kind,
            None => LinkSearchKind::All,
        };
        self.library_paths.push(BuildLibraryPath { path, kind });
        assert(self@.library_paths =~= old(self)@.library_paths.push(
            LibraryPathView { path: path@, kind },
        ));
        self
    }

    pub fn library_paths(&self) -> (paths: &Vec<BuildLibraryPath>)
        ensures
            paths@.len() == self@.library_paths.len(),
            forall|i: int| 0 <= i < paths@.len() ==> (#[trigger] paths@[i])@ == self@.library_paths[i],
    {
        &self.library_paths
    }

    pub fn add_emit(&mut self, line: String) -> (result: &mut Self)
        ensures
            result@ == (ResultView { emits: old(self)@.emits.push(line@), ..old(self)@ }),
            *final(self) == *final(result),
    {
        self.custom_compiler_emits.push(line);
        assert(self@.emits =~= old(self)@.emits.push(line@));
        self
    }

    pub fn emits(&self) -> (lines: &Vec<String>)
        ensures
            string_views(lines@) == self@.emits,
    {
        assert(string_views(self.custom_compiler_emits@) =~= self@.emits);
        &self.custom_compiler_emits
    }

    /// The lines that hand this result to the host build system.
    pub fn cargo_lines(&self) -> (lines: Vec<String>)
        ensures
            string_views(lines@) == cargo_lines_of(self@),
    {
        let mut lines: Vec<String> = Vec::new();
        let ghost view = self@;
        let ghost first = Seq::new(
            view.library_paths.len(),
            |i: int| "cargo:rustc-link-search="@ + library_path_text(view.library_paths[i]),
        );
        let ghost second = Seq::new(
            view.libraries.len(),
            |i: int| "cargo:rustc-link-lib="@ + library_text(view.libraries[i]),
        );
        let ghost third = Seq::new(view.emits.len(), |i: int| "cargo:"@ + view.emits[i]);
        let mut i: usize = 0;
        while i < self.library_paths.len()
            invariant
                i <= self.library_paths.len(),
                view == self@,
                string_views(lines@) == first.take(i as int),
                first.len() == self.library_paths.len(),
                forall|j: int| 0 <= j < first.len() ==> first[j] == "cargo:rustc-link-search="@
                    + library_path_text(#[trigger] view.library_paths[j]),
            decreases self.library_paths.len() - i,
        {
            let mut line = "cargo:rustc-link-search=".to_owned();
            let text = self.library_paths[i].to_string();
            line.append(text.as_str());
            assert(view.library_paths[i as int] == self.library_paths@[i as int]@);
            assert(line@ == first[i as int]);
            assert(string_views(lines@.push(line)) =~= first.take(i as int).push(line@));
            assert(first.take(i + 1) =~= first.take(i as int).push(first[i as int]));
            lines.push(line);
            i += 1;
        }
        assert(first.take(i as int) == first);
        let mut i: usize = 0;
        while i < self.libraries.len()
            invariant
                i <= self.libraries.len(),
                view == self@,
                string_views(lines@) == first + second.take(i as int),
                second.len() == self.libraries.len(),
                forall|j: int| 0 <= j < second.len() ==> second[j] == "cargo:rustc-link-lib="@
                    + library_text(#[trigger] view.libraries[j]),
            decreases self.libraries.len() - i,
        {
            let mut line = "cargo:rustc-link-lib=".to_owned();
            let text = self.libraries[i].to_string();
            line.append(text.as_str());
            assert(view.libraries[i as int] == self.libraries@[i as int]@);
            assert(line@ == second[i as int]);
            assert(string_views(lines@.push(line)) =~= (first + second.take(i as int)).push(line@));
            assert(first + second.take(i + 1) =~= (first + second.take(i as int)).push(
                second[i as int],
            ));
            lines.push(line);
            i += 1;
        }
        assert(second.take(i as int) == second);
        let mut i: usize = 0;
        while i < self.custom_compiler_emits.len()
            invariant
                i <= self.custom_compiler_emits.len(),
                view == self@,
                string_views(lines@) == first + second + third.take(i as int),
                third.len() == self.custom_compiler_emits.len(),
                forall|j: int| 0 <= j < third.len() ==> third[j] == "cargo:"@ + #[trigger] view.emits[j],
            decreases self.custom_compiler_emits.len() - i,
        {
            let mut line = "cargo:".to_owned();
            line.append(self.custom_compiler_emits[i].as_str());
            assert(view.emits[i as int] == self.custom_compiler_emits@[i as int]@);
            assert(line@ == third[i as int]);
            assert(string_views(lines@.push(line)) =~= (first + second + third.take(i as int)).push(
                line@,
            ));
            assert(first + second + third.take(i + 1) =~= (first + second + third.take(
                i as int,
            )).push(third[i as int]));
            lines.push(line);
            i += 1;
        }
        assert(third.take(i as int) == third);
        lines
    }
}

} // verus!
