//! OS integration: absolute paths from a volume's mount point, and the
//! programs and arguments that show a file in the file manager, open it
//! with the default handler, or hand it to an external editor. Editor and
//! path always travel as separate argument slots, never as one shell string.
use vstd::prelude::*;
use crate::text::{concat2, concat3, join_path, path_join};
use crate::dto::ImagePathsDto;

verus! {

/// The operating system the shell runs on.
#[derive(Debug, Clone, Copy, PartialEq, Eq, Structural)]
pub enum Platform {
    Linux,
    MacOs,
    Windows,
}

/// A command's failure as the interface shows it.
#[derive(Debug, Clone, PartialEq, Eq)]
pub enum CmdError {
    Io(String),
    Unavailable(String),
    Invalid(String),
}

pub open spec fn spec_cmd_message(e: CmdError) -> Seq<char> {
    match e {
        CmdError::Io(m) => "io error: "@ + m@,
        CmdError::Unavailable(m) => "temporarily unavailable: "@ + m@,
        CmdError::Invalid(m) => m@,
    }
}

impl CmdError {
    pub fn message(&self) -> (r: String)
        ensures
            r@ == spec_cmd_message(*self),
    {
        match self {
            CmdError::Io(m) => concat2("io error: ", m.as_str()),
            CmdError::Unavailable(m) => concat2("temporarily unavailable: ", m.as_str()),
            CmdError::Invalid(m) => m.clone(),
        }
    }
}

/// The absolute path of a volume-relative path under a mount point; an
/// empty relative path is the volume root itself.
pub open spec fn spec_join_mount(mount: Seq<char>, rel: Seq<char>) -> Seq<char> {
    if rel.len() == 0 {
        mount
    } else {
        path_join(mount, rel)
    }
}

pub fn join_mount(mount: &str, rel: &str) -> (r: String)
    ensures
        r@ == spec_join_mount(mount@, rel@),
{
    if rel.unicode_len() == 0 {
        String::from_str(mount)
    } else {
        join_path(mount, rel)
    }
}

/// `p` without its trailing separators.
pub open spec fn trim_end_slashes(p: Seq<char>) -> Seq<char>
    decreases p.len(),
{
    if p.len() > 0 && p.last() == '/' {
        trim_end_slashes(p.drop_last())
    } else {
        p
    }
}

/// The index of the last separator of `p`, or -1.
pub open spec fn last_slash(p: Seq<char>) -> int
    decreases p.len(),
{
    if p.len() == 0 {
        -1
    } else if p.last() == '/' {
        p.len() - 1
    } else {
        last_slash(p.drop_last())
    }
}

/// A POSIX path's parent directory (for paths without `.` components): none
/// for the empty path and the root, the empty path for a single relative
/// component, the root for a single absolute one.
pub open spec fn spec_parent(p: Seq<char>) -> Option<Seq<char>> {
    let q = trim_end_slashes(p);
    if q.len() == 0 {
        None
    } else if last_slash(q) < 0 {
        Some(seq![])
    } else {
        let head = trim_end_slashes(q.subrange(0, last_slash(q)));
        if head.len() == 0 {
            Some(seq!['/'])
        } else {
            Some(head)
        }
    }
}

pub fn trim_end_len(p: &str, n: usize) -> (r: usize)
    requires
        n <= p@.len(),
    ensures
        r <= n,
        p@.subrange(0, r as int) == trim_end_slashes(p@.subrange(0, n as int)),
{
    let mut k = n;
    while k > 0 && p.get_char(k - 1) == '/'
        invariant
            k <= n <= p@.len(),
            trim_end_slashes(p@.subrange(0, k as int)) == trim_end_slashes(p@.subrange(0, n as int)),
        decreases k,
    {
        proof {
            assert(p@.subrange(0, k as int).drop_last() =~= p@.subrange(0, k - 1));
        }
        k -= 1;
    }
    k
}

pub(crate) fn last_slash_before(p: &str, n: usize) -> (r: Option<usize>)
    requires
        n <= p@.len(),
    ensures
        match r {
            Some(i) => i < n && last_slash(p@.subrange(0, n as int)) == i,
            None => last_slash(p@.subrange(0, n as int)) == -1,
        },
{
    let mut k = n;
    while k > 0
        invariant
            k <= n <= p@.len(),
            last_slash(p@.subrange(0, n as int)) == last_slash(p@.subrange(0, k as int)),
        decreases k,
    {
        proof {
            assert(p@.subrange(0, k as int).drop_last() =~= p@.subrange(0, k - 1));
        }
        if p.get_char(k - 1) == '/' {
            return Some(k - 1);
        }
        k -= 1;
    }
    None
}

pub fn parent_dir(p: &str) -> (r: Option<String>)
    ensures
        match r {
            Some(s) => spec_parent(p@) == Some(s@),
            None => spec_parent(p@) is None,
        },
{
    let n = p.unicode_len();
    assert(p@.subrange(0, n as int) =~= p@);
    let q = trim_end_len(p, n);
    if q == 0 {
        return None;
    }
    match last_slash_before(p, q) {
        None => Some(String::new()),
        Some(i) => {
            let h = trim_end_len(p, i);
            proof {
                let qq = p@.subrange(0, q as int);
                assert(qq.subrange(0, i as int) =~= p@.subrange(0, i as int));
            }
            if h == 0 {
                let mut s = String::new();
                s.append("/");
                proof {
                    reveal_strlit("/");
                }
                Some(s)
            } else {
                Some(String::from_str(p.substring_char(0, h)))
            }
        },
    }
}

/// What shows a file in the file manager: its containing directory through
/// `xdg-open` on Linux (there is no portable select verb), `open -R` on
/// macOS, `explorer /select,` on Windows.
pub fn reveal_spec(platform: Platform, path: &str) -> (r: Result<(&'static str, Vec<String>), CmdError>)
    ensures
        platform == Platform::Linux ==> match spec_parent(path@) {
            Some(dir) => r matches Ok((program, args)) && program@ == "xdg-open"@ && args@.len() == 1 && args@[0]@ == dir,
            None => r matches Err(CmdError::Invalid(m)) && m@ == "path has no parent directory"@,
        },
        platform == Platform::MacOs ==> (r matches Ok((program, args)) && program@ == "open"@ && args@.len() == 2
            && args@[0]@ == "-R"@ && args@[1]@ == path@),
        platform == Platform::Windows ==> (r matches Ok((program, args)) && program@ == "explorer"@ && args@.len() == 1
            && args@[0]@ == "/select,"@ + path@),
{
    match platform {
        Platform::Linux => match parent_dir(path) {
            Some(dir) => {
                let mut args: Vec<String> = Vec::new();
                args.push(dir);
                Ok(("xdg-open", args))
            },
            None => Err(CmdError::Invalid(String::from_str("path has no parent directory"))),
        },
        Platform::MacOs => {
            let mut args: Vec<String> = Vec::new();
            args.push(String::from_str("-R"));
            args.push(String::from_str(path));
            Ok(("open", args))
        },
        Platform::Windows => {
            let mut args: Vec<String> = Vec::new();
            args.push(concat2("/select,", path));
            Ok(("explorer", args))
        },
    }
}

pub open spec fn default_opener(platform: Platform) -> Seq<char> {
    match platform {
        Platform::Linux => "xdg-open"@,
        Platform::MacOs => "open"@,
        Platform::Windows => "explorer"@,
    }
}

/// What opens a file or directory with the platform's default handler.
pub fn open_spec(platform: Platform, path: &str) -> (r: (&'static str, Vec<String>))
    ensures
        r.0@ == default_opener(platform),
        r.1@.len() == 1,
        r.1@[0]@ == path@,
{
    let program = match platform {
        Platform::Linux => "xdg-open",
        Platform::MacOs => "open",
        Platform::Windows => "explorer",
    };
    let mut args: Vec<String> = Vec::new();
    args.push(String::from_str(path));
    (program, args)
}

/// What hands a file to the configured editor: `open -a <editor> <path>` on
/// macOS, otherwise the editor as the program with the path as its only
/// argument.
pub fn editor_spec(platform: Platform, editor: &str, path: &str) -> (r: (String, Vec<String>))
    ensures
        platform == Platform::MacOs ==> r.0@ == "open"@ && r.1@.len() == 3 && r.1@[0]@ == "-a"@ && r.1@[1]@ == editor@
            && r.1@[2]@ == path@,
        platform != Platform::MacOs ==> r.0@ == editor@ && r.1@.len() == 1 && r.1@[0]@ == path@,
{
    let mut args: Vec<String> = Vec::new();
    if platform == Platform::MacOs {
        args.push(String::from_str("-a"));
        args.push(String::from_str(editor));
        args.push(String::from_str(path));
        (String::from_str("open"), args)
    } else {
        args.push(String::from_str(path));
        (String::from_str(editor), args)
    }
}

/// The refusal for an image whose only paths are on an offline volume,
/// naming the volume when it has a label.
pub fn offline_volume_error(volume_label: Option<&str>) -> (r: CmdError)
    ensures
        r matches CmdError::Invalid(m) && m@ == (match volume_label {
            Some(l) => "image is on an offline volume ("@ + l@ + ")"@,
            None => "image is on an offline volume"@,
        }),
{
    match volume_label {
        Some(l) => CmdError::Invalid(concat3("image is on an offline volume (", l, ")")),
        None => CmdError::Invalid(String::from_str("image is on an offline volume")),
    }
}

/// An image's best path as the library resolved it: online paths win over
/// offline ones.
#[derive(Debug, Clone)]
pub struct BestPath {
    /// Volume-relative path.
    pub rel_path: String,
    pub online: bool,
    /// Where the path's volume is mounted, when it is.
    pub mount_point: Option<String>,
}

/// The paths an image is shown with: the absolute path only while its
/// volume is online and mounted; the relative path and the volume's label
/// always, so an offline image still says where it lives.
pub fn image_paths(best: Option<BestPath>, volume_label: Option<String>) -> (r: Result<ImagePathsDto, CmdError>)
    ensures
        match best {
            None => r matches Err(CmdError::Invalid(m)) && m@ == "image has no known path"@,
            Some(b) => r matches Ok(d) && {
                &&& d.rel_path == b.rel_path
                &&& d.online == b.online
                &&& d.volume_label == volume_label
                &&& match (b.online, b.mount_point) {
                    (true, Some(m)) => d.abs_path matches Some(p) && p@ == spec_join_mount(m@, b.rel_path@),
                    _ => d.abs_path is None,
                }
            },
        },
{
    match best {
        None => Err(CmdError::Invalid(String::from_str("image has no known path"))),
        Some(b) => {
            let abs_path = if b.online {
                match &b.mount_point {
                    Some(m) => Some(join_mount(m.as_str(), b.rel_path.as_str())),
                    None => None,
                }
            } else {
                None
            };
            Ok(ImagePathsDto { abs_path, rel_path: b.rel_path, volume_label, online: b.online })
        },
    }
}

/// The absolute path the reveal and open verbs act on, or the refusal that
/// names the offline volume.
pub fn online_abs(paths: ImagePathsDto) -> (r: Result<String, CmdError>)
    ensures
        match paths.abs_path {
            Some(p) => r == Ok::<String, CmdError>(p),
            None => r matches Err(CmdError::Invalid(m)) && m@ == (match paths.volume_label {
                Some(l) => "image is on an offline volume ("@ + l@ + ")"@,
                None => "image is on an offline volume"@,
            }),
        },
{
    match paths.abs_path {
        Some(p) => Ok(p),
        None => match &paths.volume_label {
            Some(l) => Err(offline_volume_error(Some(l.as_str()))),
            None => Err(offline_volume_error(None)),
        },
    }
}

} // verus!
