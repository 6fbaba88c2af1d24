//! The immutable run context, resolved once per invocation from options and
//! environment values.

use vstd::prelude::*;

use crate::options::Options;
use crate::options::spec_split_implied;

verus! {

/// How the files to open are selected.
#[derive(Debug, PartialEq, Eq, Structural)]
pub enum FilesUsage {
    /// Depth-bounded walk of the working directory.
    RecursiveCurrentDir { recurse_depth: usize },
    /// The text file of the working directory with the latest modification time.
    LastModifiedFile,
    /// The explicitly listed files, in input order.
    FilesProvided,
}

/// Whether piped standard input is buffered into the editor, and under which
/// pipe name.
#[derive(Debug)]
pub enum PipeBufferUsage {
    Enabled { pipe_name: String },
    Disabled,
}

/// Whether a split window is created before any file is opened.
#[derive(Debug, PartialEq, Eq, Structural)]
pub enum SplitUsage {
    Enabled,
    Disabled,
}

/// Everything one run decides up front; immutable afterwards.
pub struct EnvContext {
    pub opt: Options,
    pub files_usage: FilesUsage,
    /// Scratch directory under the system temp root; created by the caller.
    pub tmp_dir: String,
    /// Unique per-run correlation token.
    pub page_id: String,
    pub pipe_buf_usage: PipeBufferUsage,
    pub split_usage: SplitUsage,
}

/// The editor address after fallback and empty-value normalization: an unset
/// address falls back to the legacy environment value, and an empty value
/// (explicit or from the environment) counts as unset.
pub open spec fn spec_resolved_address(a: Option<String>, env: Option<String>) -> Option<String> {
    let filled = if a is Some { a } else { env };
    match filled {
        Some(s) => if s@.len() == 0 { None } else { Some(s) },
        None => None,
    }
}

/// The recursion depth the options ask for: an absent flag means none, a bare
/// flag means depth one, an explicit value wins.
pub open spec fn spec_recurse_depth(rd: Option<Option<usize>>) -> usize {
    match rd {
        Some(Some(n)) => n,
        Some(None) => 1usize,
        None => 0usize,
    }
}

/// The selection mode the options ask for: a positive recursion depth wins,
/// then explicitly listed files, else the most recently modified file.
pub open spec fn spec_files_usage(files_len: nat, rd: Option<Option<usize>>) -> FilesUsage {
    if spec_recurse_depth(rd) > 0 {
        FilesUsage::RecursiveCurrentDir { recurse_depth: spec_recurse_depth(rd) }
    } else if files_len == 0 {
        FilesUsage::LastModifiedFile
    } else {
        FilesUsage::FilesProvided
    }
}

/// Builds the run context.
///
/// The caller supplies what only the process edge knows: the legacy address
/// environment value, whether standard input is a pipe rather than a
/// terminal, the already-created scratch directory, and the unique per-run
/// token.
pub fn enter(
    opt: Options,
    env_address: Option<String>,
    input_from_pipe: bool,
    tmp_dir: String,
    page_id: String,
) -> (r: EnvContext)
    ensures
        r.opt.address == spec_resolved_address(opt.address, env_address),
        r.opt.config == opt.config,
        r.opt.files == opt.files,
        r.opt.recurse_depth == opt.recurse_depth,
        r.opt.follow == opt.follow,
        r.opt.pattern == opt.pattern,
        r.opt.pattern_backwards == opt.pattern_backwards,
        r.opt.keep == opt.keep,
        r.opt.keep_until_write == opt.keep_until_write,
        r.opt.back == opt.back,
        r.opt.back_restore == opt.back_restore,
        r.opt.lua == opt.lua,
        r.opt.command == opt.command,
        r.opt.open_non_text == opt.open_non_text,
        r.opt.split == opt.split,
        r.files_usage == spec_files_usage(opt.files@.len(), opt.recurse_depth),
        r.tmp_dir == tmp_dir,
        r.page_id == page_id,
        r.split_usage == (if spec_resolved_address(opt.address, env_address) is Some
            && spec_split_implied(opt.split) { SplitUsage::Enabled } else { SplitUsage::Disabled }),
        input_from_pipe <==> r.pipe_buf_usage matches PipeBufferUsage::Enabled { .. },
        r.pipe_buf_usage matches PipeBufferUsage::Enabled { pipe_name }
            ==> pipe_name@ == page_id@ + "-read"@,
{
    let mut opt = opt;

    // Fall back to the legacy environment variable for editors that do not
    // export their own address variable.
    let filled: Option<String> = match opt.address {
        Some(a) => Some(a),
        None => env_address,
    };

    // Treat an explicitly empty address as if it was not given.
    let resolved: Option<String> = match filled {
        Some(a) => {
            if a.as_str().unicode_len() == 0 {
                None
            } else {
                Some(a)
            }
        },
        None => None,
    };
    opt.address = resolved;

    let recurse_depth: usize = match opt.recurse_depth {
        Some(Some(n)) => n,
        Some(None) => 1,
        None => 0,
    };
    let files_usage = if recurse_depth > 0 {
        FilesUsage::RecursiveCurrentDir { recurse_depth }
    } else if opt.files.len() == 0 {
        FilesUsage::LastModifiedFile
    } else {
        FilesUsage::FilesProvided
    };

    let split_usage = if opt.address.is_some() && opt.is_split_implied() {
        SplitUsage::Enabled
    } else {
        SplitUsage::Disabled
    };

    let pipe_buf_usage = if input_from_pipe {
        let mut pipe_name = page_id.clone();
        pipe_name.append("-read");
        PipeBufferUsage::Enabled { pipe_name }
    } else {
        PipeBufferUsage::Disabled
    };

    EnvContext {
        opt,
        files_usage,
        tmp_dir,
        page_id,
        pipe_buf_usage,
        split_usage,
    }
}

/// The views of a sequence of strings.
pub open spec fn str_views(s: Seq<String>) -> Seq<Seq<char>> {
    s.map_values(|x: String| x@)
}

/// The usage warnings a given set of options deserves: some options take
/// effect only when an editor address is set.
pub open spec fn spec_warnings(opt: Options) -> Seq<Seq<char>> {
    if opt.address is Some {
        Seq::empty()
    } else {
        (if spec_split_implied(opt.split) {
            seq!["Split (-r -l -u -d -R -L -U -D) is ignored if address (-a or $NVIM) isn't set"@]
        } else {
            Seq::empty()
        }) + (if opt.back || opt.back_restore {
            seq!["Switch back (-b -B) is ignored if address (-a or $NVIM) isn't set"@]
        } else {
            Seq::empty()
        })
    }
}

/// Collects the warnings for options that are ignored without an address.
pub fn warn_if_incompatible_options(opt: &Options) -> (r: Vec<String>)
    ensures
        str_views(r@) == spec_warnings(*opt),
{
    let mut warnings: Vec<String> = Vec::new();
    if opt.address.is_some() {
        proof {
            assert(str_views(warnings@) =~= spec_warnings(*opt));
        }
        return warnings;
    }

    if opt.is_split_implied() {
        warnings.push(String::from_str(
            "Split (-r -l -u -d -R -L -U -D) is ignored if address (-a or $NVIM) isn't set",
        ));
    }
    if opt.back || opt.back_restore {
        warnings.push(String::from_str(
            "Switch back (-b -B) is ignored if address (-a or $NVIM) isn't set",
        ));
    }
    proof {
        assert(str_views(warnings@) =~= spec_warnings(*opt));
    }
    warnings
}

} // verus!
