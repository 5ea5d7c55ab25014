//! The launcher: it selects the game executable among the versioned
//! install paths, assigns port ranges, and, as an actor, owns the pools of
//! instances and game ports that the orchestrator draws from.
//!
//! Probing the filesystem (listing the versioned paths, checking for the
//! support directory) and spawning the processes happen outside the
//! library; the selection rules and the port arithmetic are verified here.

use vstd::prelude::*;
use vstd::string::StringSliceAdditionalSpecFns;
use vstd::utf8::encode_utf8;
use crate::data::{copy_ports_pool, ports_pool_equiv, GamePorts, PortSet, Rect};
use crate::errors::Error;
use crate::instance::{Instance, InstanceKind, InstanceSettings};
use crate::messages::{Message, Role};
use crate::strconv::{dec_seq, digits_value, is_digit_byte, lemma_digits_value_prefix};
use crate::substrate::{
    role_targets, soma_step, Actor, Constraint, Effect, Handle, Outgoing, Protocol, Soma, Step,
};

verus! {

/// Architecture of a game executable.
#[derive(Debug, Copy, Clone, Eq, PartialEq, Structural)]
pub enum ExeArch {
    /// 64-bit build.
    X64,
    /// 32-bit build.
    X32,
}

/// Settings used to create a launcher.
#[derive(Debug)]
pub struct LauncherSettings {
    /// Installation directory; detected outside the library if absent.
    pub dir: Option<String>,
    /// Whether the game runs under Wine.
    pub use_wine: bool,
    /// Starting point for game ports.
    pub base_port: u16,
}

impl Default for LauncherSettings {
    fn default() -> (s: Self)
        ensures
            s.dir is None,
            s.use_wine == false,
            s.base_port == 9168,
    {
        Self { dir: None, use_wine: false, base_port: 9168 }
    }
}

/// What the surrounding process found when probing the install directory:
/// the resolved directory, the versioned executable candidates under it,
/// and whether the two support directories exist.
#[derive(Debug)]
pub struct InstallScan {
    /// The resolved installation directory.
    pub dir: String,
    /// Candidate executable paths, one per versioned build.
    pub entries: Vec<String>,
    /// The path separator of this platform, as a one-character string.
    pub separator: String,
    /// Whether the 32-bit support directory exists.
    pub support_present: bool,
    /// Whether the 64-bit support directory exists.
    pub support64_present: bool,
}

/// End of the run of decimal digit bytes starting at `j`.
pub open spec fn digit_run_end(s: Seq<u8>, j: int) -> int
    decreases s.len() - j,
{
    if j < 0 || j >= s.len() || !is_digit_byte(s[j]) {
        j
    } else {
        digit_run_end(s, j + 1)
    }
}

/// Whether the versioned-path pattern matches at position `i`: the word
/// "Base", a run of digits, the separator, then "SC2".
pub open spec fn match_at(s: Seq<u8>, sep: u8, i: int) -> bool {
    &&& 0 <= i
    &&& i + 4 <= s.len()
    &&& s[i] == 66 && s[i + 1] == 97 && s[i + 2] == 115 && s[i + 3] == 101
    &&& ({
        let e = digit_run_end(s, i + 4);
        e + 4 <= s.len() && s[e] == sep && s[e + 1] == 83 && s[e + 2] == 67 && s[e + 3] == 50
    })
}

/// Whether the match at `i` carries the "_x64" suffix after "SC2".
pub open spec fn x64_at(s: Seq<u8>, i: int) -> bool {
    let e = digit_run_end(s, i + 4);
    e + 8 <= s.len() && s[e + 4] == 95 && s[e + 5] == 120 && s[e + 6] == 54 && s[e + 7] == 52
}

/// Leftmost position at or after `k` where the pattern matches, or -1.
pub open spec fn first_match_from(s: Seq<u8>, sep: u8, k: int) -> int
    decreases s.len() - k,
{
    if k < 0 || k + 8 > s.len() {
        -1
    } else if match_at(s, sep, k) {
        k
    } else {
        first_match_from(s, sep, k + 1)
    }
}

/// Leftmost position where the pattern matches, or -1.
pub open spec fn first_match(s: Seq<u8>, sep: u8) -> int {
    first_match_from(s, sep, 0)
}

/// The digit run of the match at `i`.
pub open spec fn version_digits(s: Seq<u8>, i: int) -> Seq<u8> {
    s.subrange(i + 4, digit_run_end(s, i + 4))
}

/// The version and architecture a candidate path encodes, if its leftmost
/// pattern match carries a parseable version: an empty digit run, or one
/// beyond the parser's range, disqualifies the candidate.
pub open spec fn entry_version(s: Seq<u8>, sep: u8) -> Option<(nat, ExeArch)> {
    let i = first_match(s, sep);
    if i < 0 {
        None
    } else {
        let ds = version_digits(s, i);
        if ds.len() == 0 || digits_value(ds) > 2147483647 {
            None
        } else {
            Some(
                (
                    digits_value(ds),
                    if x64_at(s, i) {
                        ExeArch::X64
                    } else {
                        ExeArch::X32
                    },
                ),
            )
        }
    }
}

/// The byte sequence of a path string.
pub open spec fn path_bytes(s: String) -> Seq<u8> {
    encode_utf8(s@)
}

/// The executable-selection fold over the candidate paths, in order:
/// tracks the highest version seen, the architecture chosen among
/// same-version builds, and the selected path. Under Wine only 32-bit
/// builds are eligible when a new highest version appears.
pub open spec fn select_fold(entries: Seq<String>, sep: u8, use_wine: bool) -> (
    int,
    ExeArch,
    Option<(String, ExeArch)>,
)
    decreases entries.len(),
{
    if entries.len() == 0 {
        (0, ExeArch::X32, None::<(String, ExeArch)>)
    } else {
        let prior = select_fold(entries.drop_last(), sep, use_wine);
        let cv = prior.0;
        let ca = prior.1;
        let exe = prior.2;
        match entry_version(path_bytes(entries.last()), sep) {
            None => (cv, ca, exe),
            Some(va) => {
                let v = va.0;
                let arch = va.1;
                if cv < v {
                    if use_wine {
                        if arch is X32 {
                            (v as int, ca, Some((entries.last(), arch)))
                        } else {
                            (v as int, ca, exe)
                        }
                    } else {
                        (v as int, ca, Some((entries.last(), arch)))
                    }
                } else if cv == v && !use_wine {
                    let na = if ca is X64 || arch is X64 {
                        ExeArch::X64
                    } else {
                        ExeArch::X32
                    };
                    (cv, na, Some((entries.last(), na)))
                } else {
                    (cv, ca, exe)
                }
            },
        }
    }
}

proof fn lemma_digit_run_end_bounds(s: Seq<u8>, j: int)
    requires
        0 <= j <= s.len(),
    ensures
        j <= digit_run_end(s, j) <= s.len(),
        forall|k: int| j <= k < digit_run_end(s, j) ==> is_digit_byte(#[trigger] s[k]),
    decreases s.len() - j,
{
    if j < s.len() && is_digit_byte(s[j]) {
        lemma_digit_run_end_bounds(s, j + 1);
    }
}

proof fn lemma_digit_run_end_value(s: Seq<u8>, start: int, j: int)
    requires
        0 <= start <= j <= s.len(),
        forall|k: int| start <= k < j ==> is_digit_byte(#[trigger] s[k]),
        j == s.len() || !is_digit_byte(s[j]),
    ensures
        digit_run_end(s, start) == j,
    decreases j - start,
{
    if start < j {
        lemma_digit_run_end_value(s, start + 1, j);
    }
}

proof fn lemma_first_match_found(s: Seq<u8>, sep: u8, k: int, i: int)
    requires
        0 <= k <= i,
        match_at(s, sep, i),
        i + 8 <= s.len(),
        forall|j: int| k <= j < i ==> !match_at(s, sep, j),
    ensures
        first_match_from(s, sep, k) == i,
    decreases i - k,
{
    if k < i {
        lemma_first_match_found(s, sep, k + 1, i);
    }
}

proof fn lemma_first_match_none(s: Seq<u8>, sep: u8, k: int)
    requires
        0 <= k,
        forall|j: int| k <= j ==> !match_at(s, sep, j),
    ensures
        first_match_from(s, sep, k) == -1,
    decreases s.len() - k,
{
    if k + 8 <= s.len() {
        lemma_first_match_none(s, sep, k + 1);
    }
}

/// A pattern match needs eight bytes of room.
proof fn lemma_match_needs_room(s: Seq<u8>, sep: u8, i: int)
    requires
        match_at(s, sep, i),
    ensures
        i + 8 <= s.len(),
{
    lemma_digit_run_end_bounds(s, i + 4);
}

/// Scans to the end of the digit run starting at `start`.
fn digit_run_scan(b: &[u8], start: usize) -> (e: usize)
    requires
        start <= b@.len(),
    ensures
        e == digit_run_end(b@, start as int),
        start <= e <= b@.len(),
        forall|k: int| start <= k < e ==> is_digit_byte(#[trigger] b@[k]),
{
    let mut j = start;
    while j < b.len() && 48 <= b[j] && b[j] <= 57
        invariant
            start <= j <= b@.len(),
            forall|k: int| start <= k < j ==> is_digit_byte(#[trigger] b@[k]),
        decreases b@.len() - j,
    {
        j = j + 1;
    }
    proof {
        lemma_digit_run_end_value(b@, start as int, j as int);
    }
    j
}

/// Finds the leftmost position where the versioned-path pattern matches.
fn find_match(b: &[u8], sep: u8) -> (r: Option<usize>)
    ensures
        match r {
            Some(i) => i == first_match(b@, sep) && match_at(b@, sep, i as int),
            None => first_match(b@, sep) == -1,
        },
{
    if b.len() < 8 {
        proof {
            assert forall|j: int| 0 <= j implies !match_at(b@, sep, j) by {
                if match_at(b@, sep, j) {
                    lemma_match_needs_room(b@, sep, j);
                }
            }
            lemma_first_match_none(b@, sep, 0);
        }
        return None;
    }
    let mut i: usize = 0;
    while i <= b.len() - 8
        invariant
            b@.len() >= 8,
            i <= b@.len(),
            forall|j: int| 0 <= j < i ==> !match_at(b@, sep, j),
        decreases b@.len() - i,
    {
        let mut hit = false;
        if b[i] == 66 && b[i + 1] == 97 && b[i + 2] == 115 && b[i + 3] == 101 {
            let e = digit_run_scan(b, i + 4);
            if b.len() - e >= 4 && b[e] == sep && b[e + 1] == 83 && b[e + 2] == 67 && b[e + 3]
                == 50 {
                hit = true;
            }
        }
        if hit {
            proof {
                lemma_first_match_found(b@, sep, 0, i as int);
            }
            return Some(i);
        }
        proof {
            assert(!match_at(b@, sep, i as int));
        }
        i = i + 1;
    }
    proof {
        assert forall|j: int| 0 <= j implies !match_at(b@, sep, j) by {
            if match_at(b@, sep, j) {
                lemma_match_needs_room(b@, sep, j);
                assert(j < i);
            }
        }
        lemma_first_match_none(b@, sep, 0);
    }
    None
}

/// Parses the version and architecture a candidate path encodes.
#[verifier::loop_isolation(false)]
fn parse_entry(s: &String, sep: u8) -> (r: Option<(u32, ExeArch)>)
    ensures
        match entry_version(path_bytes(*s), sep) {
            None => r is None,
            Some(p) => r matches Some(q) && q.0 == p.0 && q.1 == p.1,
        },
{
    let st = s.as_str();
    let b = st.as_bytes();
    proof {
        assert(b@ == st.spec_bytes());
        assert(st.spec_bytes() == encode_utf8(st@));
        assert(b@ == path_bytes(*s));
    }
    let i = match find_match(b, sep) {
        Some(i) => i,
        None => {
            return None;
        },
    };
    let n = b.len();
    proof {
        lemma_match_needs_room(b@, sep, i as int);
        assert(i as int + 8 <= n as int);
    }
    let e = digit_run_scan(b, i + 4);
    if e == i + 4 {
        return None;
    }
    let ghost ds = version_digits(b@, i as int);
    let mut acc: u64 = 0;
    let mut k = i + 4;
    while k < e
        invariant
            i + 4 <= k <= e <= b@.len(),
            e == digit_run_end(b@, i as int + 4),
            forall|t: int| i + 4 <= t < e ==> is_digit_byte(#[trigger] b@[t]),
            acc == digits_value(b@.subrange(i as int + 4, k as int)),
            acc <= 2147483647,
            ds == version_digits(b@, i as int),
        decreases e - k,
    {
        let d = b[k] - 48;
        let next: u64 = acc * 10 + (d as u64);
        proof {
            assert(b@.subrange(i as int + 4, k as int + 1).drop_last() =~= b@.subrange(
                i as int + 4,
                k as int,
            ));
            assert(b@.subrange(i as int + 4, k as int + 1).last() == b@[k as int]);
        }
        if next > 2147483647 {
            proof {
                let pre = b@.subrange(i as int + 4, k as int + 1);
                assert(digits_value(pre) == digits_value(pre.drop_last()) * 10 + (pre.last()
                    - 48) as nat);
                assert(digits_value(pre) == next);
                assert(ds.take(k + 1 - (i + 4)) =~= pre);
                lemma_digits_value_prefix(ds, k + 1 - (i + 4));
                assert(digits_value(ds) > 2147483647);
            }
            return None;
        }
        acc = next;
        k = k + 1;
    }
    proof {
        assert(b@.subrange(i as int + 4, e as int) =~= ds);
    }
    let arch = if b.len() - e >= 8 && b[e + 4] == 95 && b[e + 5] == 120 && b[e + 6] == 54 && b[e
        + 7] == 52 {
        ExeArch::X64
    } else {
        ExeArch::X32
    };
    Some((acc as u32, arch))
}

/// Selects the executable among the candidate paths: the highest version
/// wins; among equal versions (outside Wine) a 64-bit build wins; under
/// Wine only 32-bit builds are taken when a higher version appears.
pub fn select_exe(entries: &Vec<String>, use_wine: bool, sep: u8) -> (r: Result<
    (String, ExeArch),
    Error,
>)
    ensures
        match select_fold(entries@, sep, use_wine).2 {
            Some(p) => r matches Ok(x) && x.0 == p.0 && x.1 == p.1,
            None => r == Err::<(String, ExeArch), Error>(Error::ExeNotFound),
        },
{
    let mut current_version: u32 = 0;
    let mut current_arch = ExeArch::X32;
    let mut exe: Option<(String, ExeArch)> = None;
    let mut i: usize = 0;
    while i < entries.len()
        invariant
            i <= entries.len(),
            current_version as int == select_fold(entries@.take(i as int), sep, use_wine).0,
            current_arch == select_fold(entries@.take(i as int), sep, use_wine).1,
            exe == select_fold(entries@.take(i as int), sep, use_wine).2,
            current_version <= 2147483647,
        decreases entries.len() - i,
    {
        proof {
            assert(entries@.take(i as int + 1).drop_last() =~= entries@.take(i as int));
            assert(entries@.take(i as int + 1).last() == entries@[i as int]);
        }
        match parse_entry(&entries[i], sep) {
            None => {},
            Some((v, arch)) => {
                if current_version < v {
                    current_version = v;
                    if use_wine {
                        if arch == ExeArch::X32 {
                            exe = Some((entries[i].clone(), arch));
                        }
                    } else {
                        exe = Some((entries[i].clone(), arch));
                    }
                } else if current_version == v && !use_wine {
                    current_arch = if current_arch == ExeArch::X64 || arch == ExeArch::X64 {
                        ExeArch::X64
                    } else {
                        ExeArch::X32
                    };
                    exe = Some((entries[i].clone(), current_arch));
                }
            },
        }
        i = i + 1;
    }
    proof {
        assert(entries@.take(entries@.len() as int) =~= entries@);
    }
    match exe {
        Some(p) => Ok(p),
        None => Err(Error::ExeNotFound),
    }
}

/// The name of the support directory for an architecture.
pub open spec fn support_suffix(arch: ExeArch) -> Seq<char> {
    if arch is X64 {
        "Support64"@
    } else {
        "Support"@
    }
}

/// Computes the working directory the executable must be started from:
/// the architecture's support directory under the install directory, if
/// the caller's probe found it present.
pub fn select_pwd(dir: &String, arch: ExeArch, sep: &String, present: bool) -> (r: Option<String>)
    ensures
        if present {
            r matches Some(p) && p@ == dir@ + sep@ + support_suffix(arch)
        } else {
            r is None
        },
{
    if !present {
        return None;
    }
    let mut path = dir.clone();
    path.append(sep.as_str());
    match arch {
        ExeArch::X64 => {
            path.append("Support64");
            proof {
                assert(path@ =~= dir@ + sep@ + support_suffix(arch));
            }
        },
        ExeArch::X32 => {
            path.append("Support");
            proof {
                assert(path@ =~= dir@ + sep@ + support_suffix(arch));
            }
        },
    }
    Some(path)
}

/// The object in charge of launching game instances and assigning ports.
#[derive(Debug)]
pub struct Launcher {
    /// The selected executable.
    pub exe: String,
    /// The working directory the executable needs, if any.
    pub pwd: Option<String>,
    /// Next port to hand out.
    pub current_port: u16,
    /// Whether instances run under Wine.
    pub use_wine: bool,
}

impl Launcher {
    /// Creates a launcher from settings and the caller's probe of the
    /// install directory: the executable with the highest version is
    /// selected, and the matching support directory becomes the working
    /// directory.
    pub fn from(settings: LauncherSettings, scan: InstallScan) -> (r: Result<Launcher, Error>)
        requires
            scan.separator@.len() == 1,
        ensures
            ({
                let sep = first_byte(scan.separator);
                match select_fold(scan.entries@, sep, settings.use_wine).2 {
                    None => r == Err::<Launcher, Error>(Error::ExeNotFound),
                    Some(p) => r matches Ok(l) && l.exe == p.0 && l.current_port
                        == settings.base_port && l.use_wine == settings.use_wine && ({
                        let present = if p.1 is X64 {
                            scan.support64_present
                        } else {
                            scan.support_present
                        };
                        if present {
                            l.pwd matches Some(w) && w@ == scan.dir@ + scan.separator@
                                + support_suffix(p.1)
                        } else {
                            l.pwd is None
                        }
                    }),
                }
            }),
    {
        let sep_bytes = scan.separator.as_str().as_bytes();
        proof {
            let cs = scan.separator@;
            assert(encode_utf8(cs) == vstd::utf8::encode_scalar(cs[0] as u32) + encode_utf8(
                cs.drop_first(),
            ));
            assert(encode_utf8(cs.drop_first()) =~= Seq::<u8>::empty());
            assert(vstd::utf8::encode_scalar(cs[0] as u32).len() >= 1);
            assert(sep_bytes@.len() >= 1);
        }
        let sep = sep_bytes[0];
        let (exe, arch) = match select_exe(&scan.entries, settings.use_wine, sep) {
            Ok(p) => p,
            Err(e) => {
                return Err(e);
            },
        };
        let present = match arch {
            ExeArch::X64 => scan.support64_present,
            ExeArch::X32 => scan.support_present,
        };
        let pwd = select_pwd(&scan.dir, arch, &scan.separator, present);
        Ok(
            Launcher {
                exe,
                pwd,
                current_port: settings.base_port,
                use_wine: settings.use_wine,
            },
        )
    }

    /// Prepares one instance on the next port triple: the instance
    /// listens on the first port and reserves the following two for its
    /// game connection.
    pub fn launch(&mut self) -> (r: Result<Instance, Error>)
        requires
            old(self).current_port + 3 <= u16::MAX,
        ensures
            final(self).current_port == old(self).current_port + 3,
            final(self).exe == old(self).exe,
            final(self).pwd == old(self).pwd,
            final(self).use_wine == old(self).use_wine,
            r matches Ok(inst) && inst.kind == (if old(self).use_wine {
                InstanceKind::Wine
            } else {
                InstanceKind::Native
            }) && inst.exe == old(self).exe && inst.pwd == old(self).pwd && inst.address.0@
                == "127.0.0.1"@ && inst.address.1 == old(self).current_port && inst.window_rect
                == (Rect { x: 10u32, y: 10u32, w: 1024u32, h: 768u32 }) && inst.ports == (PortSet {
                game_port: (old(self).current_port + 1) as u16,
                base_port: (old(self).current_port + 2) as u16,
            }),
    {
        let kind = if self.use_wine {
            InstanceKind::Wine
        } else {
            InstanceKind::Native
        };
        let host = String::from_str("127.0.0.1");
        let pwd = match &self.pwd {
            Some(p) => Some(p.clone()),
            None => None,
        };
        let settings = InstanceSettings {
            kind,
            exe: Some(self.exe.clone()),
            pwd,
            address: (host, self.current_port),
            window_rect: Rect { x: 10, y: 10, w: 1024, h: 768 },
            ports: PortSet {
                game_port: self.current_port + 1,
                base_port: self.current_port + 2,
            },
        };
        self.current_port = self.current_port + 3;
        Instance::from_settings(settings, true)
    }

    /// Creates a set of ports for a multiplayer game on the next port
    /// triple: a shared port and the host's pair; the clients' pairs are
    /// filled in when instances are bound.
    pub fn create_game_ports(&mut self) -> (r: GamePorts)
        requires
            old(self).current_port + 3 <= u16::MAX,
        ensures
            final(self).current_port == old(self).current_port + 3,
            final(self).exe == old(self).exe,
            final(self).pwd == old(self).pwd,
            final(self).use_wine == old(self).use_wine,
            r.shared_port == old(self).current_port,
            r.server_ports == (PortSet {
                game_port: (old(self).current_port + 1) as u16,
                base_port: (old(self).current_port + 2) as u16,
            }),
            r.client_ports@ =~= Seq::<PortSet>::empty(),
    {
        let ports = GamePorts {
            shared_port: self.current_port,
            server_ports: PortSet {
                game_port: self.current_port + 1,
                base_port: self.current_port + 2,
            },
            client_ports: Vec::new(),
        };
        self.current_port = self.current_port + 3;
        ports
    }
}

/// The first byte of a one-character string.
pub open spec fn first_byte(s: String) -> u8 {
    encode_utf8(s@)[0]
}

/// The first candidate directory that the caller's probe found present,
/// if any.
pub open spec fn first_present(candidates: Seq<(String, bool)>) -> Option<String>
    decreases candidates.len(),
{
    if candidates.len() == 0 {
        None
    } else if candidates[0].1 {
        Some(candidates[0].0)
    } else {
        first_present(candidates.drop_first())
    }
}

/// Auto-detection of the installation directory: the conventional places
/// are probed outside the library, in order of preference, and the first
/// one present wins; none present means no executable was specified.
pub fn auto_detect_dir(candidates: &Vec<(String, bool)>) -> (r: Result<String, Error>)
    ensures
        match first_present(candidates@) {
            Some(dir) => r == Ok::<String, Error>(dir),
            None => r == Err::<String, Error>(Error::ExeNotSpecified),
        },
{
    let mut i: usize = 0;
    while i < candidates.len()
        invariant
            i <= candidates.len(),
            forall|j: int| 0 <= j < i ==> !candidates@[j].1,
        decreases candidates.len() - i,
    {
        if candidates[i].1 {
            proof {
                lemma_first_present_at(candidates@, i as int);
            }
            return Ok(candidates[i].0.clone());
        }
        i = i + 1;
    }
    proof {
        lemma_first_present_none(candidates@);
    }
    Err(Error::ExeNotSpecified)
}

proof fn lemma_first_present_at(candidates: Seq<(String, bool)>, i: int)
    requires
        0 <= i < candidates.len(),
        candidates[i].1,
        forall|j: int| 0 <= j < i ==> !candidates[j].1,
    ensures
        first_present(candidates) == Some(candidates[i].0),
    decreases i,
{
    if i > 0 {
        assert forall|j: int| 0 <= j < i - 1 implies !candidates.drop_first()[j].1 by {
            assert(candidates.drop_first()[j] == candidates[j + 1]);
        }
        assert(candidates.drop_first()[i - 1] == candidates[i]);
        lemma_first_present_at(candidates.drop_first(), i - 1);
    }
}

proof fn lemma_first_present_none(candidates: Seq<(String, bool)>)
    requires
        forall|j: int| 0 <= j < candidates.len() ==> !candidates[j].1,
    ensures
        first_present(candidates) is None,
    decreases candidates.len(),
{
    if candidates.len() > 0 {
        assert forall|j: int| 0 <= j < candidates.drop_first().len() implies !candidates.drop_first()[j].1 by {
            assert(candidates.drop_first()[j] == candidates[j + 1]);
        }
        lemma_first_present_none(candidates.drop_first());
    }
}

} // verus!

verus! {

/// Copies the instance pool element by element; the path strings clone to
/// equal values, so the copy equals the original.
fn copy_instances(v: &Vec<(u64, String, PortSet)>) -> (r: Vec<(u64, String, PortSet)>)
    ensures
        r@ =~= v@,
{
    let mut r: Vec<(u64, String, PortSet)> = Vec::new();
    let mut i: usize = 0;
    while i < v.len()
        invariant
            i <= v.len(),
            r@ =~= v@.take(i as int),
        decreases v.len() - i,
    {
        let id = v[i].0;
        let url = v[i].1.clone();
        let ports = v[i].2;
        r.push((id, url, ports));
        proof {
            assert(v@.take(i + 1 as int).drop_last() =~= v@.take(i as int));
            assert(r@ =~= v@.take(i + 1 as int));
        }
        i = i + 1;
    }
    proof {
        assert(v@.take(v@.len() as int) =~= v@);
    }
    r
}

/// The endpoint url of an instance listening locally on the given port.
pub open spec fn instance_url_chars(port: u16) -> Seq<char> {
    "ws://"@ + "127.0.0.1"@ + ":"@ + dec_seq(port as nat) + "/sc2api"@
}

/// What one launch request does to the launcher actor, once its source is
/// validated: a process launch goes out on the next port triple, the pool
/// gains the instance under a fresh id, every second launch also creates
/// a set of game ports, and the refreshed pools go back to the requester.
pub open spec fn launch_instance_spec(
    pre: LauncherReady,
    requester: Handle,
    r: Result<Step<LauncherCell>, Error>,
) -> bool {
    if pre.launcher.current_port + 6 > u16::MAX || pre.next_instance_id == u64::MAX {
        r == Err::<Step<LauncherCell>, Error>(Error::PortsExhausted)
    } else {
        let cp = pre.launcher.current_port;
        let paired = (pre.instances@.len() + 1) % 2 == 0;
        r matches Ok(s) && s.actor matches LauncherCell::Ready(lc) && {
            &&& lc.soma == pre.soma
            &&& lc.launcher.exe == pre.launcher.exe
            &&& lc.launcher.pwd == pre.launcher.pwd
            &&& lc.launcher.use_wine == pre.launcher.use_wine
            &&& lc.launcher.current_port == cp + (if paired { 6int } else { 3int })
            &&& lc.next_instance_id == pre.next_instance_id + 1
            &&& lc.instances@.len() == pre.instances@.len() + 1
            &&& lc.instances@.take(pre.instances@.len() as int) =~= pre.instances@
            &&& lc.instances@.last().0 == pre.next_instance_id
            &&& lc.instances@.last().1@ == instance_url_chars(cp)
            &&& lc.instances@.last().2 == (PortSet {
                game_port: (cp + 1) as u16,
                base_port: (cp + 2) as u16,
            })
            &&& if paired {
                lc.ports@.len() == pre.ports@.len() + 1 && lc.ports@.take(
                    pre.ports@.len() as int,
                ) =~= pre.ports@ && lc.ports@.last().shared_port == cp + 3
                    && lc.ports@.last().server_ports == (PortSet {
                    game_port: (cp + 4) as u16,
                    base_port: (cp + 5) as u16,
                }) && lc.ports@.last().client_ports@ =~= Seq::<PortSet>::empty()
            } else {
                lc.ports@ =~= pre.ports@
            }
            &&& s.outbox@.len() == 2
            &&& s.outbox@[0].dest == requester
            &&& (s.outbox@[0].msg matches Message::InstancePool(v) && v@ =~= lc.instances@)
            &&& s.outbox@[1].dest == requester
            &&& (s.outbox@[1].msg matches Message::PortsPool(w) && ports_pool_equiv(w@, lc.ports@))
            &&& s.effects@.len() == 1
            &&& (s.effects@[0] matches Effect::LaunchProcess(st) && st.kind == (
            if pre.launcher.use_wine {
                InstanceKind::Wine
            } else {
                InstanceKind::Native
            }) && (st.exe matches Some(e) && e == pre.launcher.exe) && st.pwd == pre.launcher.pwd
                && st.address.0@ == "127.0.0.1"@ && st.address.1 == cp && st.ports == (PortSet {
                game_port: (cp + 1) as u16,
                base_port: (cp + 2) as u16,
            }))
            &&& !s.stop
        }
    }
}

/// What one lifecycle event does to the launcher actor.
pub open spec fn launcher_update_spec(
    pre: LauncherReady,
    event: Protocol,
    r: Result<Step<LauncherCell>, Error>,
) -> bool {
            match event {
                Protocol::Init(_) | Protocol::AddInput(..) | Protocol::AddOutput(..) => (r matches
                    Ok(s) && s.actor matches LauncherCell::Ready(st) && soma_step(
                    pre.soma,
                    st.soma,
                    event,
                ) && st.launcher == pre.launcher && st.instances@ == pre.instances@ && st.ports@
                    == pre.ports@ && st.next_instance_id == pre.next_instance_id && s.outbox@
                    =~= Seq::<Outgoing>::empty() && s.effects@ =~= Seq::<Effect>::empty()
                    && !s.stop),
                Protocol::Start => if pre.soma.wired() {
                    r matches Ok(s) && s.actor == LauncherCell::Ready(pre) && s.outbox@ =~= Seq::<
                        Outgoing,
                    >::empty() && s.effects@ =~= Seq::<Effect>::empty() && !s.stop
                } else {
                    r matches Err(e) && e matches Error::ArityViolation { .. }
                },
                Protocol::Stop => (r matches Ok(s) && s.actor == LauncherCell::Ready(pre)
                    && s.outbox@ =~= Seq::<Outgoing>::empty() && s.effects@ =~= Seq::<
                    Effect,
                >::empty() && !s.stop),
                Protocol::Message(src, msg) => {
                    let lp = role_targets(pre.soma.inputs@, Role::Launcher);
                    match msg {
                        Message::GetInstancePool => if lp.len() != 1 {
                            r == Err::<Step<LauncherCell>, Error>(
                                Error::MissingPeer { role: Role::Launcher },
                            )
                        } else if src != lp[0] {
                            r == Err::<Step<LauncherCell>, Error>(Error::UnexpectedSource)
                        } else {
                            r matches Ok(s) && s.actor == LauncherCell::Ready(pre)
                                && s.outbox@.len() == 1 && s.outbox@[0].dest == src && (
                            s.outbox@[0].msg matches Message::InstancePool(v) && v@
                                =~= pre.instances@) && s.effects@ =~= Seq::<Effect>::empty()
                                && !s.stop
                        },
                        Message::GetPortsPool => if lp.len() != 1 {
                            r == Err::<Step<LauncherCell>, Error>(
                                Error::MissingPeer { role: Role::Launcher },
                            )
                        } else if src != lp[0] {
                            r == Err::<Step<LauncherCell>, Error>(Error::UnexpectedSource)
                        } else {
                            r matches Ok(s) && s.actor == LauncherCell::Ready(pre)
                                && s.outbox@.len() == 1 && s.outbox@[0].dest == src && (
                            s.outbox@[0].msg matches Message::PortsPool(w) && ports_pool_equiv(
                                w@,
                                pre.ports@,
                            )) && s.effects@ =~= Seq::<Effect>::empty() && !s.stop
                        },
                        Message::LaunchInstance => if lp.len() != 1 {
                            r == Err::<Step<LauncherCell>, Error>(
                                Error::MissingPeer { role: Role::Launcher },
                            )
                        } else if src != lp[0] {
                            r == Err::<Step<LauncherCell>, Error>(Error::UnexpectedSource)
                        } else {
                            launch_instance_spec(pre, src, r)
                        },
                        _ => r == Err::<Step<LauncherCell>, Error>(Error::UnexpectedMessage),
                    }
                },
            }
}

/// The launcher actor: it owns the pools of instances and game ports, and
/// answers the orchestrator's pool requests and launch commands.
#[derive(Debug)]
pub enum LauncherCell {
    /// The launcher actor's one phase.
    Ready(LauncherReady),
}

/// State of the launcher actor.
#[derive(Debug)]
pub struct LauncherReady {
    /// The actor's mailbox helper.
    pub soma: Soma,
    /// The port and executable bookkeeping.
    pub launcher: Launcher,
    /// Launched instances: id, endpoint url, and client port pair.
    pub instances: Vec<(u64, String, PortSet)>,
    /// Created game-port sets, one per pair of instances.
    pub ports: Vec<GamePorts>,
    /// The id the next launched instance receives.
    pub next_instance_id: u64,
}

impl LauncherCell {
    /// Wraps a launcher as an actor. Its one port takes commands from the
    /// orchestrator under the Launcher role.
    pub fn new(launcher: Launcher) -> (r: LauncherCell)
        ensures
            r matches LauncherCell::Ready(lc) && lc.soma.id is None && lc.soma.inputs@ =~= Seq::<
                (Role, Handle),
            >::empty() && lc.soma.outputs@ =~= Seq::<(Role, Handle)>::empty()
                && lc.soma.input_constraints@ =~= seq![Constraint::RequireOne(Role::Launcher)]
                && lc.soma.output_constraints@ =~= Seq::<Constraint>::empty() && lc.launcher
                == launcher && lc.instances@ =~= Seq::<(u64, String, PortSet)>::empty() && lc.ports@
                =~= Seq::<GamePorts>::empty() && lc.next_instance_id == 0,
    {
        let mut input_constraints: Vec<Constraint> = Vec::new();
        input_constraints.push(Constraint::RequireOne(Role::Launcher));
        LauncherCell::Ready(
            LauncherReady {
                soma: Soma::new(input_constraints, Vec::new()),
                launcher,
                instances: Vec::new(),
                ports: Vec::new(),
                next_instance_id: 0,
            },
        )
    }
}

impl LauncherReady {
    /// Handles one lifecycle event of the launcher actor.
    pub fn update(self, event: Protocol) -> (r: Result<Step<LauncherCell>, Error>)
        ensures
            launcher_update_spec(self, event, r),
    {
        let mut this = self;
        let passed = match this.soma.update(event) {
            Ok(p) => p,
            Err(e) => {
                return Err(e);
            },
        };
        match passed {
            None => Ok(Step::advance(LauncherCell::Ready(this))),
            Some(Protocol::Start) => Ok(Step::advance(LauncherCell::Ready(this))),
            Some(Protocol::Stop) => Ok(Step::advance(LauncherCell::Ready(this))),
            Some(Protocol::Message(src, Message::GetInstancePool)) => {
                let requester = match this.soma.req_input(Role::Launcher) {
                    Ok(h) => h,
                    Err(e) => {
                        return Err(e);
                    },
                };
                if src != requester {
                    return Err(Error::UnexpectedSource);
                }
                let pool = copy_instances(&this.instances);
                let mut outbox: Vec<Outgoing> = Vec::new();
                outbox.push(Outgoing { dest: src, msg: Message::InstancePool(pool) });
                Ok(
                    Step {
                        actor: LauncherCell::Ready(this),
                        outbox,
                        effects: Vec::new(),
                        stop: false,
                    },
                )
            },
            Some(Protocol::Message(src, Message::GetPortsPool)) => {
                let requester = match this.soma.req_input(Role::Launcher) {
                    Ok(h) => h,
                    Err(e) => {
                        return Err(e);
                    },
                };
                if src != requester {
                    return Err(Error::UnexpectedSource);
                }
                let pool = copy_ports_pool(&this.ports);
                let mut outbox: Vec<Outgoing> = Vec::new();
                outbox.push(Outgoing { dest: src, msg: Message::PortsPool(pool) });
                Ok(
                    Step {
                        actor: LauncherCell::Ready(this),
                        outbox,
                        effects: Vec::new(),
                        stop: false,
                    },
                )
            },
            Some(Protocol::Message(src, Message::LaunchInstance)) => {
                let requester = match this.soma.req_input(Role::Launcher) {
                    Ok(h) => h,
                    Err(e) => {
                        return Err(e);
                    },
                };
                if src != requester {
                    return Err(Error::UnexpectedSource);
                }
                this.launch_instance(src)
            },
            Some(_) => Err(Error::UnexpectedMessage),
        }
    }

    /// Launches one instance and broadcasts the refreshed pools.
    pub fn launch_instance(self, requester: Handle) -> (r: Result<Step<LauncherCell>, Error>)
        ensures
            launch_instance_spec(self, requester, r),
    {
        let mut this = self;
        if this.launcher.current_port > u16::MAX - 6 || this.next_instance_id == u64::MAX {
            return Err(Error::PortsExhausted);
        }
        let instance = match this.launcher.launch() {
            Ok(inst) => inst,
            Err(_) => {
                return Err(Error::PortsExhausted);
            },
        };
        let url = instance.ws_url();
        this.instances.push((this.next_instance_id, url, instance.ports));
        this.next_instance_id = this.next_instance_id + 1;
        if this.instances.len() % 2 == 0 {
            let gp = this.launcher.create_game_ports();
            this.ports.push(gp);
        }
        let settings = InstanceSettings {
            kind: instance.kind,
            exe: Some(instance.exe),
            pwd: instance.pwd,
            address: instance.address,
            window_rect: instance.window_rect,
            ports: instance.ports,
        };
        let instance_pool = copy_instances(&this.instances);
        let ports_pool = copy_ports_pool(&this.ports);
        let mut outbox: Vec<Outgoing> = Vec::new();
        outbox.push(Outgoing { dest: requester, msg: Message::InstancePool(instance_pool) });
        outbox.push(Outgoing { dest: requester, msg: Message::PortsPool(ports_pool) });
        let mut effects: Vec<Effect> = Vec::new();
        effects.push(Effect::LaunchProcess(settings));
        Ok(Step { actor: LauncherCell::Ready(this), outbox, effects, stop: false })
    }
}

impl LauncherCell {
    /// Dispatches one lifecycle event to the launcher actor's one phase.
    pub fn step_event(self, event: Protocol) -> (r: Result<Step<LauncherCell>, Error>)
        ensures
            match self {
                LauncherCell::Ready(st) => launcher_update_spec(st, event, r),
            },
    {
        match self {
            LauncherCell::Ready(state) => state.update(event),
        }
    }
}

impl Actor for LauncherCell {
    fn update(self, event: Protocol) -> Result<Step<LauncherCell>, Error> {
        self.step_event(event)
    }
}

} // verus!
