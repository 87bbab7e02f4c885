//! The static files of the site, each under the name it was written with
//! and under the name it is served with, which carries a hash of its
//! content.

use vstd::prelude::*;

verus! {

/// One static file.
#[derive(Clone, Debug, PartialEq, Eq)]
pub struct StaticFile {
    /// The name the file was written with.
    pub name: String,
    /// The name the file is served with.
    pub hashed_name: String,
}

/// What a [`StaticFile`] holds, as plain text.
pub struct StaticFileView {
    pub name: Seq<char>,
    pub hashed_name: Seq<char>,
}

impl View for StaticFile {
    type V = StaticFileView;

    open spec fn view(&self) -> StaticFileView {
        StaticFileView { name: self.name@, hashed_name: self.hashed_name@ }
    }
}

/// The known static files, in the order in which they were added.
pub struct StaticFiles {
    files: Vec<StaticFile>,
}

impl View for StaticFiles {
    type V = Seq<StaticFileView>;

    closed spec fn view(&self) -> Seq<StaticFileView> {
        self.files@.map_values(|file: StaticFile| file@)
    }
}

/// The first of `files` that was written with the name `name`.
pub open spec fn file_named(files: Seq<StaticFileView>, name: Seq<char>) -> Option<
    StaticFileView,
>
    decreases files.len(),
{
    if files.len() == 0 {
        None
    } else if files[0].name == name {
        Some(files[0])
    } else {
        file_named(files.drop_first(), name)
    }
}

/// Where no file before `at` has the name, the search among all files gives
/// what the search from `at` on gives.
proof fn lemma_file_named_skips(files: Seq<StaticFileView>, name: Seq<char>, at: int)
    requires
        0 <= at <= files.len(),
        forall|i: int| 0 <= i < at ==> files[i].name != name,
    ensures
        file_named(files, name) == file_named(files.skip(at), name),
    decreases at,
{
    if at == 0 {
        assert(files.skip(0) =~= files);
    } else {
        lemma_file_named_skips(files.drop_first(), name, at - 1);
        assert(files.drop_first().skip(at - 1) =~= files.skip(at));
    }
}

impl StaticFiles {
    /// No files.
    pub fn new() -> (files: StaticFiles)
        ensures
            files@ == Seq::<StaticFileView>::empty(),
    {
        let files = StaticFiles { files: Vec::new() };
        assert(files@ =~= Seq::<StaticFileView>::empty());
        files
    }

    /// Adds a file after those that are there.
    pub fn add(&mut self, name: &str, hashed_name: &str)
        ensures
            final(self)@ == old(self)@.push(
                (StaticFileView { name: name@, hashed_name: hashed_name@ }),
            ),
    {
        self.files.push(StaticFile { name: name.to_owned(), hashed_name: hashed_name.to_owned() });
        assert(self@ =~= old(self)@.push(
            (StaticFileView { name: name@, hashed_name: hashed_name@ }),
        ));
    }

    /// The first file that was written with the name `name`.
    pub fn by_orig_name(&self, name: &str) -> (found: Option<&StaticFile>)
        ensures
            match found {
                Some(file) => file_named(self@, name@) == Some(file@),
                None => file_named(self@, name@) is None,
            },
    {
        let wanted = name.to_owned();
        let mut at: usize = 0;
        while at < self.files.len()
            invariant
                at <= self.files.len(),
                wanted@ == name@,
                forall|i: int| 0 <= i < at ==> self@[i].name != name@,
            decreases self.files.len() - at,
        {
            if self.files[at].name == wanted {
                proof {
                    lemma_file_named_skips(self@, name@, at as int);
                    assert(self@.skip(at as int)[0] == self.files[at as int]@);
                }
                return Some(&self.files[at]);
            }
            at += 1;
        }
        proof {
            lemma_file_named_skips(self@, name@, at as int);
            assert(self@.skip(at as int).len() == 0);
        }
        None
    }
}

} // verus!
