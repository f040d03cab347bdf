//! Picking the description files out of a directory listing.
use vstd::prelude::*;
use vstd::string::StringExecFns;

verus! {

/// What is known of one entry of a directory.
#[derive(Debug, PartialEq, Eq)]
pub struct EntryInfo {
    /// The entry's path.
    pub path: String,
    /// Whether the entry is a regular file.
    pub is_file: bool,
    /// The extension of the path, without the dot, if it has one.
    pub extension: Option<String>,
}

/// An entry of a directory as a mathematical value.
pub struct EntryView {
    pub path: Seq<char>,
    pub is_file: bool,
    pub extension: Option<Seq<char>>,
}

impl View for EntryInfo {
    type V = EntryView;

    open spec fn view(&self) -> EntryView {
        EntryView {
            path: self.path@,
            is_file: self.is_file,
            extension: match self.extension {
                Some(extension) => Some(extension@),
                None => None,
            },
        }
    }
}

/// The mathematical values of a listing, in order.
pub open spec fn entry_views(entries: Seq<EntryInfo>) -> Seq<EntryView> {
    entries.map_values(|entry: EntryInfo| entry@)
}

/// Whether an entry is a description: a regular file with the extension
/// `json`.
pub open spec fn is_idl_json(entry: EntryView) -> bool {
    entry.is_file && entry.extension == Some("json"@)
}

/// The paths of the descriptions among `entries`, in the order of the
/// listing.
pub open spec fn idl_json_paths(entries: Seq<EntryView>) -> Seq<Seq<char>>
    decreases entries.len(),
{
    if entries.len() == 0 {
        Seq::<Seq<char>>::empty()
    } else if is_idl_json(entries.last()) {
        idl_json_paths(entries.drop_last()).push(entries.last().path)
    } else {
        idl_json_paths(entries.drop_last())
    }
}

/// The paths of a list of strings.
pub open spec fn path_texts(paths: Seq<String>) -> Seq<Seq<char>> {
    paths.map_values(|path: String| path@)
}

/// Finds the descriptions in a directory listing: the regular files whose
/// extension is `json`, in the order of the listing.
pub fn find_idl_json(entries: &Vec<EntryInfo>) -> (paths: Vec<String>)
    ensures
        path_texts(paths@) == idl_json_paths(entry_views(entries@)),
{
    let mut paths: Vec<String> = Vec::new();
    let json = String::from_str("json");
    let mut i: usize = 0;
    proof {
        assert(entry_views(entries@).take(0) =~= Seq::<EntryView>::empty());
        assert(path_texts(paths@) =~= idl_json_paths(entry_views(entries@).take(0)));
    }
    while i < entries.len()
        invariant
            i <= entries@.len(),
            json@ == "json"@,
            path_texts(paths@) == idl_json_paths(entry_views(entries@).take(i as int)),
        decreases entries@.len() - i,
    {
        let entry = &entries[i];
        let ghost before = paths@;
        proof {
            let taken = entry_views(entries@).take(i + 1);
            assert(taken.drop_last() =~= entry_views(entries@).take(i as int));
            assert(taken.last() == entries@[i as int]@);
        }
        if entry.is_file {
            match &entry.extension {
                Some(extension) => {
                    if *extension == json {
                        paths.push(entry.path.clone());
                        assert(path_texts(paths@) =~= path_texts(before).push(entry.path@));
                    }
                },
                None => {},
            }
        }
        i += 1;
    }
    assert(entry_views(entries@).take(i as int) =~= entry_views(entries@));
    paths
}

/// Where the source unit of a description is written: under `./src/`, named
/// by the stem of the description's file, with the extension `rs`.
pub open spec fn output_path_text(file_stem: Seq<char>) -> Seq<char> {
    "./src/"@ + file_stem + ".rs"@
}

/// The path of the source unit for the description whose file has the stem
/// `file_stem`.
pub fn output_path(file_stem: &str) -> (path: String)
    ensures
        path@ == output_path_text(file_stem@),
{
    let mut path = String::from_str("./src/");
    path.append(file_stem);
    path.append(".rs");
    path
}

} // verus!
