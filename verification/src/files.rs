//! File candidates: path resolution, the content-probe verdict, and the
//! selection rules of each mode.

use vstd::prelude::*;

use crate::text::str_eq;

verus! {

/// One file the run may open: its resolved absolute path, whether the
/// content probe classified it as text, and its modification time (seconds
/// or any other monotone stamp the caller chooses), where known.
pub struct FileToOpen {
    pub path_string: String,
    pub is_text: bool,
    pub modified_time: Option<u64>,
}

/// `path` resolved against the working directory `pwd`: an absolute path
/// stands alone, anything else goes under `pwd`.
pub open spec fn spec_join_path(pwd: Seq<char>, path: Seq<char>) -> Seq<char> {
    if path.len() > 0 && path[0] == '/' {
        path
    } else {
        pwd + "/"@ + path
    }
}

impl FileToOpen {
    /// Builds a candidate from the invoking shell's working directory, the
    /// given path, and what only the process edge knows: the content probe's
    /// verdict and the file's modification stamp.
    pub fn new(pwd: &str, path: &str, is_text: bool, modified_time: Option<u64>) -> (r: FileToOpen)
        ensures
            r.path_string@ == spec_join_path(pwd@, path@),
            r.is_text == is_text,
            r.modified_time == modified_time,
    {
        let absolute = path.unicode_len() > 0 && path.get_char(0) == '/';
        let mut path_string = String::new();
        if absolute {
            path_string.append(path);
        } else {
            path_string.append(pwd);
            path_string.append("/");
            path_string.append(path);
        }
        proof {
            reveal_strlit("/");
            assert(path_string@ =~= spec_join_path(pwd@, path@));
        }
        FileToOpen { path_string, is_text, modified_time }
    }

    /// The modification stamp captured at construction time.
    pub fn get_modified_time(&self) -> (r: u64)
        requires
            self.modified_time is Some,
        ensures
            r == self.modified_time->0,
    {
        self.modified_time.unwrap()
    }
}

/// Whether position `i` of `s` starts the `": "` field separator of the
/// content probe's report.
pub open spec fn spec_sep_at(s: Seq<char>, i: int) -> bool {
    0 <= i && i + 2 <= s.len() && s[i] == ':' && s[i + 1] == ' '
}

/// The last separator position strictly below `upto`, or `-1` if none.
pub open spec fn spec_last_sep(s: Seq<char>, upto: int) -> int
    decreases upto,
{
    if upto <= 0 {
        -1
    } else if spec_sep_at(s, upto - 1) {
        upto - 1
    } else {
        spec_last_sep(s, upto - 1)
    }
}

/// The content type the probe reported: everything after the last `": "`
/// separator, or the whole report if it has none.
pub open spec fn spec_filetype(s: Seq<char>) -> Seq<char> {
    let i = spec_last_sep(s, s.len() as int);
    if i >= 0 {
        s.subrange(i + 2, s.len() as int)
    } else {
        s
    }
}

/// Reads the content probe's report and decides whether the file counts as
/// text: the reported type must be exactly plain ASCII text.
pub fn is_text_file(file_cmd_output: &str) -> (r: bool)
    ensures
        r <==> spec_filetype(file_cmd_output@) == "ASCII text\n"@,
{
    let len = file_cmd_output.unicode_len();
    let mut j: usize = len;
    let mut found: bool = false;
    let mut sep: usize = 0;
    while j > 0 && !found
        invariant
            len == file_cmd_output@.len(),
            j <= len,
            !found ==> spec_last_sep(file_cmd_output@, len as int)
                == spec_last_sep(file_cmd_output@, j as int),
            found ==> sep as int == spec_last_sep(file_cmd_output@, len as int),
            found ==> spec_sep_at(file_cmd_output@, sep as int),
        decreases j + (if found { 0int } else { 1 }),
    {
        if j < len && file_cmd_output.get_char(j - 1) == ':'
            && file_cmd_output.get_char(j) == ' ' {
            found = true;
            sep = j - 1;
        } else {
            j = j - 1;
        }
    }
    let filetype: &str = if found {
        file_cmd_output.substring_char(sep + 2, len)
    } else {
        proof {
            assert(spec_filetype(file_cmd_output@) == file_cmd_output@);
        }
        file_cmd_output
    };
    str_eq(filetype, "ASCII text\n")
}

/// Builds one candidate per explicitly listed path, in input order: the
/// explicit selection depends on no filesystem state beyond the probe
/// verdicts handed in alongside.
pub fn explicit_candidates(pwd: &str, paths: &Vec<String>, is_text: &Vec<bool>) -> (r: Vec<
    FileToOpen,
>)
    requires
        paths@.len() == is_text@.len(),
    ensures
        r@.len() == paths@.len(),
        forall|i: int| 0 <= i < r@.len() ==> {
            &&& (#[trigger] r@[i]).path_string@ == spec_join_path(pwd@, paths@[i]@)
            &&& r@[i].is_text == is_text@[i]
            &&& r@[i].modified_time is None
        },
{
    let mut r: Vec<FileToOpen> = Vec::new();
    let n = paths.len();
    let mut i: usize = 0;
    while i < n
        invariant
            n == paths@.len(),
            n == is_text@.len(),
            i <= n,
            r@.len() == i,
            forall|j: int| 0 <= j < i ==> {
                &&& (#[trigger] r@[j]).path_string@ == spec_join_path(pwd@, paths@[j]@)
                &&& r@[j].is_text == is_text@[j]
                &&& r@[j].modified_time is None
            },
        decreases n - i,
    {
        r.push(FileToOpen::new(pwd, paths[i].as_str(), is_text[i], None));
        i = i + 1;
    }
    r
}

/// Whether a candidate survives the text filter.
pub open spec fn spec_kept(f: FileToOpen, open_non_text: bool) -> bool {
    f.is_text || open_non_text
}

/// The index the latest-modified selection picks from `cands`: the kept
/// candidate with the greatest modification stamp, the earliest such one when
/// stamps tie, or `None` when no candidate is kept.
pub open spec fn spec_last_modified(cands: Seq<FileToOpen>, open_non_text: bool) -> Option<int>
    decreases cands.len(),
{
    if cands.len() == 0 {
        None
    } else {
        let prior = spec_last_modified(cands.drop_last(), open_non_text);
        let f = cands.last();
        if !spec_kept(f, open_non_text) {
            prior
        } else {
            match prior {
                None => Some(cands.len() - 1),
                Some(k) => if cands[k].modified_time->0 < f.modified_time->0 {
                    Some(cands.len() - 1)
                } else {
                    prior
                },
            }
        }
    }
}

/// Picks the most recently modified kept candidate, by the rule of
/// `spec_last_modified`. Every kept candidate must carry a stamp.
pub fn select_last_modified(cands: &Vec<FileToOpen>, open_non_text: bool) -> (r: Option<usize>)
    requires
        forall|i: int| 0 <= i < cands@.len() && spec_kept(cands@[i], open_non_text)
            ==> cands@[i].modified_time is Some,
    ensures
        match r {
            None => spec_last_modified(cands@, open_non_text) is None,
            Some(k) => spec_last_modified(cands@, open_non_text) == Some(k as int),
        },
{
    let mut best: Option<usize> = None;
    let n = cands.len();
    let mut i: usize = 0;
    while i < n
        invariant
            n == cands@.len(),
            i <= n,
            forall|k: int| 0 <= k < cands@.len() && spec_kept(cands@[k], open_non_text)
                ==> cands@[k].modified_time is Some,
            match best {
                None => spec_last_modified(cands@.take(i as int), open_non_text) is None,
                Some(k) => k < i && spec_kept(cands@[k as int], open_non_text)
                    && spec_last_modified(cands@.take(i as int), open_non_text) == Some(k as int),
            },
        decreases n - i,
    {
        let f = &cands[i];
        proof {
            assert(cands@.take(i as int + 1).drop_last() =~= cands@.take(i as int));
            assert(cands@.take(i as int + 1).last() == cands@[i as int]);
        }
        if f.is_text || open_non_text {
            match best {
                None => {
                    best = Some(i);
                },
                Some(k) => {
                    let prior = cands[k].get_modified_time();
                    let cur = f.get_modified_time();
                    if prior < cur {
                        best = Some(i);
                    }
                },
            }
        }
        i = i + 1;
    }
    proof {
        assert(cands@.take(n as int) =~= cands@);
    }
    best
}

/// What the selection index promises, spelled out: the pick is kept, carries
/// the greatest stamp among kept candidates, and no earlier kept candidate
/// reaches that stamp.
pub proof fn lemma_last_modified_is_max(cands: Seq<FileToOpen>, open_non_text: bool)
    requires
        forall|i: int| 0 <= i < cands.len() && spec_kept(cands[i], open_non_text)
            ==> cands[i].modified_time is Some,
    ensures
        (spec_last_modified(cands, open_non_text) is None
            <==> forall|i: int| 0 <= i < cands.len() ==> !spec_kept(cands[i], open_non_text)),
        spec_last_modified(cands, open_non_text) matches Some(k) ==> {
            &&& 0 <= k < cands.len()
            &&& spec_kept(cands[k], open_non_text)
            &&& forall|i: int| 0 <= i < cands.len() && spec_kept(cands[i], open_non_text)
                ==> cands[i].modified_time->0 <= cands[k].modified_time->0
            &&& forall|i: int| 0 <= i < k && spec_kept(cands[i], open_non_text)
                ==> cands[i].modified_time->0 < cands[k].modified_time->0
        },
    decreases cands.len(),
{
    if cands.len() > 0 {
        lemma_last_modified_is_max(cands.drop_last(), open_non_text);
        assert(forall|i: int| 0 <= i < cands.len() - 1 ==> cands.drop_last()[i] == cands[i]);
    }
}

/// With pairwise distinct stamps among kept candidates, the pick is the
/// unique kept candidate with the maximum modification time.
pub proof fn lemma_last_modified_distinct_unique(cands: Seq<FileToOpen>, open_non_text: bool, k: int)
    requires
        forall|i: int| 0 <= i < cands.len() && spec_kept(cands[i], open_non_text)
            ==> cands[i].modified_time is Some,
        forall|i: int, j: int| 0 <= i < j < cands.len()
            && spec_kept(cands[i], open_non_text) && spec_kept(cands[j], open_non_text)
            ==> cands[i].modified_time->0 != cands[j].modified_time->0,
        spec_last_modified(cands, open_non_text) == Some(k),
    ensures
        0 <= k < cands.len(),
        spec_kept(cands[k], open_non_text),
        forall|i: int| 0 <= i < cands.len() && i != k && spec_kept(cands[i], open_non_text)
            ==> cands[i].modified_time->0 < cands[k].modified_time->0,
{
    lemma_last_modified_is_max(cands, open_non_text);
}

} // verus!
