//! What the agent finds out about the machine it runs on: its identity,
//! the container it runs in, the operating system.

use crate::scan::{
    begins, find, first_at, line_at, next_char, read_line, seek, slice, starts_with,
    strip_prefixes, strip_suffixes, trim_char, trimmed_of, without_prefixes, without_suffixes,
};
use crate::text::{
    blank, chars_of, join, lemma_blank_trimmed, opt_view, string_of, trim, trim_chars, trimmed,
    views,
};
use vstd::prelude::*;
use vstd::string::StringExecFns;

verus! {

/// Whether a line starts at the index `i` of `s`.
pub open spec fn line_start(s: Seq<char>, i: int) -> bool {
    i == 0 || (0 < i <= s.len() && s[i - 1] == '\n')
}

/// What `f` makes of the first line of `s`, from the index `i` on, of
/// which it makes anything.
pub open spec fn first_line(s: Seq<char>, f: spec_fn(Seq<char>) -> Option<Seq<char>>, i: int)
    -> Option<Seq<char>>
    decreases s.len() - i,
{
    if i < 0 || i >= s.len() {
        None
    } else if line_start(s, i) && f(line_at(s, i)) is Some {
        f(line_at(s, i))
    } else {
        first_line(s, f, i + 1)
    }
}

/// Between two indices without a line start the search finds the same.
proof fn lemma_no_line_start(
    s: Seq<char>,
    f: spec_fn(Seq<char>) -> Option<Seq<char>>,
    a: int,
    b: int,
)
    requires
        0 <= a <= b,
        forall|i: int| a <= i < b ==> !line_start(s, i),
    ensures
        first_line(s, f, a) == first_line(s, f, b),
    decreases b - a,
{
    if a < b {
        lemma_no_line_start(s, f, a + 1, b);
    }
}

/// A line of which `f` makes nothing is passed over: the search goes on
/// behind its line feed.
proof fn lemma_next_line(s: Seq<char>, f: spec_fn(Seq<char>) -> Option<Seq<char>>, from: int)
    requires
        0 <= from < s.len(),
        line_start(s, from),
        f(line_at(s, from)) is None,
    ensures
        first_line(s, f, from) == first_line(s, f, next_char(s, '\n', from) + 1),
{
    crate::scan::lemma_next_char(s, '\n', from);
    let end = next_char(s, '\n', from);
    assert forall|i: int| from + 1 <= i < end + 1 implies !line_start(s, i) by {
        assert(s[i - 1] != '\n');
    }
    lemma_no_line_start(s, f, from + 1, end + 1);
}

/// The key under which a release file names the distribution.
pub open spec fn pretty_key() -> Seq<char> {
    "PRETTY_NAME="@
}

/// The name that a line of a release file gives the distribution: what
/// follows the key, without the quotes around it.
pub open spec fn pretty_name(line: Seq<char>) -> Option<Seq<char>> {
    if starts_with(line, pretty_key()) {
        Some(trim_char(line.skip(pretty_key().len() as int), '"'))
    } else {
        None
    }
}

/// What each line of a release file is asked for.
pub open spec fn naming() -> spec_fn(Seq<char>) -> Option<Seq<char>> {
    |l: Seq<char>| pretty_name(l)
}

/// The name of the distribution: that of the first line of the release
/// file that gives one, or the name of the platform where no line does or
/// the file could not be read.
pub open spec fn os_name(release: Option<Seq<char>>, platform: Seq<char>) -> Seq<char> {
    match release {
        Some(content) => match first_line(content, naming(), 0) {
            Some(name) => name,
            None => platform,
        },
        None => platform,
    }
}

/// The name that `line` gives the distribution.
fn pretty_name_of(line: &Vec<char>) -> (r: Option<Vec<char>>)
    ensures
        match r {
            Some(n) => pretty_name(line@) == Some(n@),
            None => pretty_name(line@) is None,
        },
{
    let key = chars_of("PRETTY_NAME=");
    if begins(line, &key) {
        let rest = slice(line, key.len(), line.len());
        assert(rest@ == line@.skip(key@.len() as int));
        Some(trimmed_of(&rest, '"'))
    } else {
        None
    }
}

/// The name that the release file `content` gives the distribution.
fn release_name(content: &str) -> (r: Option<String>)
    ensures
        opt_view(r) == first_line(content@, naming(), 0),
{
    let s = chars_of(content);
    let ghost f = naming();
    let mut from: usize = 0;
    while from < s.len()
        invariant
            s@ == content@,
            f == naming(),
            from <= s@.len(),
            line_start(s@, from as int),
            first_line(s@, f, 0) == first_line(s@, f, from as int),
        decreases s@.len() - from,
    {
        let (line, end) = read_line(&s, from);
        assert(f(line@) == pretty_name(line@));
        match pretty_name_of(&line) {
            Some(name) => {
                let r = string_of(&name, 0, name.len());
                assert(name@.subrange(0, name@.len() as int) == name@);
                return Some(r);
            },
            None => {
                proof {
                    lemma_next_line(s@, f, from as int);
                    crate::scan::lemma_next_char(s@, '\n', from as int);
                }
                if end >= s.len() {
                    return None;
                }
                from = end + 1;
            },
        }
    }
    None
}

/// The name of the distribution, from the content of the release file
/// (`None` where it could not be read) and the name of the platform.
pub fn os_info(release: Option<&str>, platform: &str) -> (r: String)
    ensures
        r@ == os_name(
            match release {
                Some(c) => Some(c@),
                None => None,
            },
            platform@,
        ),
{
    if let Some(content) = release {
        if let Some(name) = release_name(content) {
            return name;
        }
    }
    String::from_str(platform)
}

/// What marks the part of a control group path that names a container
/// scope.
pub open spec fn scope_prefix() -> Seq<char> {
    "docker-"@
}

/// What ends the part of a control group path that names a container
/// scope.
pub open spec fn scope_suffix() -> Seq<char> {
    ".scope"@
}

/// What stands before a container identifier in a control group path.
pub open spec fn docker_dir() -> Seq<char> {
    "/docker/"@
}

/// Whether a part of a path starts at the index `i` of `line`.
pub open spec fn part_start(line: Seq<char>, i: int) -> bool {
    i == 0 || (0 < i <= line.len() && line[i - 1] == '/')
}

/// The part of the path `line` that starts at `i`: up to the next slash.
pub open spec fn part_at(line: Seq<char>, i: int) -> Seq<char> {
    line.subrange(i, next_char(line, '/', i))
}

/// The first part of the path `line`, from the index `i` on, that begins
/// with the scope prefix.
pub open spec fn scope_part(line: Seq<char>, i: int) -> Option<Seq<char>>
    decreases line.len() - i,
{
    if i < 0 || i >= line.len() {
        None
    } else if part_start(line, i) && starts_with(part_at(line, i), scope_prefix()) {
        Some(part_at(line, i))
    } else {
        scope_part(line, i + 1)
    }
}

/// The identifier in a scope part: the part without the prefix before it
/// and the suffix behind it.
pub open spec fn scope_id(part: Seq<char>) -> Seq<char> {
    strip_suffixes(strip_prefixes(part, scope_prefix()), scope_suffix())
}

/// What follows the first docker directory of the path `line`, up to the
/// next one: trimmed, and nothing where that leaves nothing.
pub open spec fn dir_id(line: Seq<char>) -> Option<Seq<char>> {
    match first_at(line, docker_dir(), 0) {
        None => None,
        Some(i) => {
            let start = i + docker_dir().len();
            let end = match first_at(line, docker_dir(), start) {
                Some(j) => j,
                None => line.len() as int,
            };
            let id = trimmed(line.subrange(start, end));
            if id.len() > 0 {
                Some(id)
            } else {
                None
            }
        },
    }
}

/// The container identifier that one line of a control group file gives:
/// that of its first scope part, where it has one that names an
/// identifier, and else what follows its docker directory.
pub open spec fn line_id(line: Seq<char>) -> Option<Seq<char>> {
    match scope_part(line, 0) {
        Some(part) => if scope_id(part).len() > 0 {
            Some(scope_id(part))
        } else {
            dir_id(line)
        },
        None => dir_id(line),
    }
}

/// The container identifier that a control group file gives: that of its
/// first line that gives one.
pub open spec fn container_id_in(cgroup: Seq<char>) -> Option<Seq<char>> {
    first_line(cgroup, identifying(), 0)
}

/// What each line of a control group file is asked for.
pub open spec fn identifying() -> spec_fn(Seq<char>) -> Option<Seq<char>> {
    |l: Seq<char>| line_id(l)
}

/// Between two indices at which no part starts the search for a scope
/// part finds the same.
proof fn lemma_no_part_start(line: Seq<char>, a: int, b: int)
    requires
        0 <= a <= b,
        forall|i: int| a <= i < b ==> !part_start(line, i),
    ensures
        scope_part(line, a) == scope_part(line, b),
    decreases b - a,
{
    if a < b {
        lemma_no_part_start(line, a + 1, b);
    }
}

/// The first part of the path `line` that begins with the scope prefix.
fn scope_part_of(line: &Vec<char>) -> (r: Option<Vec<char>>)
    ensures
        match r {
            Some(p) => scope_part(line@, 0) == Some(p@),
            None => scope_part(line@, 0) is None,
        },
{
    let prefix = chars_of("docker-");
    let mut from: usize = 0;
    while from < line.len()
        invariant
            from <= line@.len(),
            prefix@ == scope_prefix(),
            part_start(line@, from as int),
            scope_part(line@, 0) == scope_part(line@, from as int),
        decreases line@.len() - from,
    {
        let end: usize = seek(line, '/', from);
        let part = slice(line, from, end);
        if begins(&part, &prefix) {
            return Some(part);
        }
        proof {
            crate::scan::lemma_next_char(line@, '/', from as int);
            assert forall|i: int| from + 1 <= i < end + 1 implies !part_start(line@, i) by {
                assert(line@[i - 1] != '/');
            }
            lemma_no_part_start(line@, from + 1, end + 1);
        }
        if end >= line.len() {
            return None;
        }
        from = end + 1;
    }
    None
}

/// What follows the first docker directory of the path `line`.
fn dir_id_of(line: &Vec<char>) -> (r: Option<Vec<char>>)
    ensures
        match r {
            Some(id) => dir_id(line@) == Some(id@),
            None => dir_id(line@) is None,
        },
{
    let dir = chars_of("/docker/");
    let i: usize = match find(line, &dir, 0) {
        Some(i) => i,
        None => {
            return None;
        },
    };
    proof {
        crate::scan::lemma_first_at(line@, dir@, 0);
    }
    let n: usize = line.len();
    assert(i + dir@.len() <= n);
    let start: usize = i + dir.len();
    let end: usize = match find(line, &dir, start) {
        Some(j) => j,
        None => line.len(),
    };
    proof {
        crate::scan::lemma_first_at(line@, dir@, start as int);
    }
    let raw = slice(line, start, end);
    let id = trim_chars(&raw);
    if id.len() > 0 {
        Some(id)
    } else {
        None
    }
}

/// The container identifier that the line `line` gives.
fn line_id_of(line: &Vec<char>) -> (r: Option<Vec<char>>)
    ensures
        match r {
            Some(id) => line_id(line@) == Some(id@),
            None => line_id(line@) is None,
        },
{
    if let Some(part) = scope_part_of(line) {
        let prefix = chars_of("docker-");
        let suffix = chars_of(".scope");
        let head = without_prefixes(&part, &prefix);
        let id = without_suffixes(&head, &suffix);
        if id.len() > 0 {
            return Some(id);
        }
    }
    dir_id_of(line)
}

/// The identifier of the container the agent runs in, from the content of
/// its control group file.
pub fn parse_container_id_from_cgroup(cgroup: &str) -> (r: Option<String>)
    ensures
        opt_view(r) == container_id_in(cgroup@),
{
    let s = chars_of(cgroup);
    let ghost f = identifying();
    let mut from: usize = 0;
    while from < s.len()
        invariant
            s@ == cgroup@,
            f == identifying(),
            from <= s@.len(),
            line_start(s@, from as int),
            first_line(s@, f, 0) == first_line(s@, f, from as int),
        decreases s@.len() - from,
    {
        let (line, end) = read_line(&s, from);
        assert(f(line@) == line_id(line@));
        match line_id_of(&line) {
            Some(id) => {
                let r = string_of(&id, 0, id.len());
                assert(id@.subrange(0, id@.len() as int) == id@);
                return Some(r);
            },
            None => {
                proof {
                    lemma_next_line(s@, f, from as int);
                    crate::scan::lemma_next_char(s@, '\n', from as int);
                }
                if end >= s.len() {
                    return None;
                }
                from = end + 1;
            },
        }
    }
    None
}

/// The identifier of the container the agent runs in, if it runs in one:
/// what its control group file gives (`None` where the file could not be
/// read), whether or not the marker file of the container runtime is
/// there.
pub fn get_container_id(marker_exists: bool, cgroup: Option<&str>) -> (r: Option<String>)
    ensures
        opt_view(r) == match cgroup {
            Some(c) => container_id_in(c@),
            None => None,
        },
{
    match cgroup {
        Some(c) => {
            if marker_exists {
                if let Some(id) = parse_container_id_from_cgroup(c) {
                    return Some(id);
                }
            }
            parse_container_id_from_cgroup(c)
        },
        None => None,
    }
}

/// Whether the agent runs in a Kubernetes pod: the service host is set in
/// the environment, or the service account directory is there.
pub fn is_kubernetes(service_host_set: bool, service_account_exists: bool) -> (r: bool)
    ensures
        r == (service_host_set || service_account_exists),
{
    service_host_set || service_account_exists
}

/// Where the stored identifier of the agent is looked for.
pub const SYSTEM_ID_PATH: &'static str = "/var/lib/solti/agent-id";

/// Where the stored identifier is looked for below the home directory.
pub const HOME_ID_PATH: &'static str = "/.solti/agent-id";

/// The files in which the stored identifier is looked for, in order, for
/// the home directory `home`.
pub fn id_paths(home: &str) -> (r: Vec<String>)
    ensures
        views(r@) == seq![SYSTEM_ID_PATH@, home@ + HOME_ID_PATH@],
{
    let mut r: Vec<String> = Vec::new();
    r.push(String::from_str(SYSTEM_ID_PATH));
    r.push(join(home, HOME_ID_PATH));
    assert(views(r@) =~= seq![SYSTEM_ID_PATH@, home@ + HOME_ID_PATH@]);
    r
}

/// The stored identifier: the trimmed content of the first file, from the
/// index `i` on, that could be read and is not blank.
pub open spec fn stored_from(files: Seq<Option<Seq<char>>>, i: int) -> Option<Seq<char>>
    decreases files.len() - i,
{
    if i < 0 || i >= files.len() {
        None
    } else if files[i] is Some && !blank(files[i]->0) {
        Some(trimmed(files[i]->0))
    } else {
        stored_from(files, i + 1)
    }
}

/// The views of the contents of a list of files.
pub open spec fn contents(files: Seq<Option<String>>) -> Seq<Option<Seq<char>>> {
    files.map_values(|f: Option<String>| opt_view(f))
}

/// The stored identifier of the agent, from the contents of the files in
/// which it is looked for (`None` for a file that could not be read).
pub fn stored_id(files: &Vec<Option<String>>) -> (r: Option<String>)
    ensures
        opt_view(r) == stored_from(contents(files@), 0),
{
    let mut i: usize = 0;
    while i < files.len()
        invariant
            i <= files@.len(),
            stored_from(contents(files@), 0) == stored_from(contents(files@), i as int),
        decreases files@.len() - i,
    {
        assert(contents(files@)[i as int] == opt_view(files@[i as int]));
        if let Some(content) = &files[i] {
            let id = trim(content.as_str());
            proof {
                lemma_blank_trimmed(content@);
            }
            if id.as_str().unicode_len() > 0 {
                return Some(id);
            }
        }
        i = i + 1;
    }
    None
}

/// What the agent knows when it settles on its identifier.
#[derive(Debug)]
pub struct IdSources {
    /// Whether the agent runs in a Kubernetes pod.
    pub kubernetes: bool,
    /// The host name, where it could be had and is valid text.
    pub hostname: Option<String>,
    /// The identifier of the container the agent runs in.
    pub container_id: Option<String>,
    /// The stored identifier.
    pub stored: Option<String>,
}

/// The identifier that the sources settle: the host name in a pod, else
/// the container identifier, else the stored identifier. Where none of
/// them is there the agent makes one up.
pub open spec fn settled(
    kubernetes: bool,
    hostname: Option<Seq<char>>,
    container_id: Option<Seq<char>>,
    stored: Option<Seq<char>>,
) -> Option<Seq<char>> {
    if kubernetes && hostname is Some {
        hostname
    } else if container_id is Some {
        container_id
    } else {
        stored
    }
}

impl IdSources {
    /// The identifier that the sources settle.
    pub open spec fn settle(&self) -> Option<Seq<char>> {
        settled(
            self.kubernetes,
            opt_view(self.hostname),
            opt_view(self.container_id),
            opt_view(self.stored),
        )
    }

    /// The identifier that the sources settle, if they settle one.
    pub fn settled_id(&self) -> (r: Option<String>)
        ensures
            opt_view(r) == self.settle(),
    {
        if self.kubernetes {
            if let Some(name) = &self.hostname {
                return Some(name.clone());
            }
        }
        if let Some(id) = &self.container_id {
            return Some(id.clone());
        }
        match &self.stored {
            Some(id) => Some(id.clone()),
            None => None,
        }
    }
}

/// The identifier of the agent: what the sources settle, or `fresh`.
pub fn agent_id_from(sources: &IdSources, fresh: String) -> (r: String)
    ensures
        r@ == match sources.settle() {
            Some(id) => id,
            None => fresh@,
        },
{
    match sources.settled_id() {
        Some(id) => id,
        None => fresh,
    }
}

/// A digit of a number written in lowercase hexadecimal.
pub open spec fn hex_digit(c: char) -> bool {
    ('0' <= c && c <= '9') || ('a' <= c && c <= 'f')
}

/// The shape of a random identifier: thirty-two lowercase hexadecimal
/// digits in groups of eight, four, four, four and twelve, with a hyphen
/// between the groups; the third group begins with the version, `4`, and
/// the fourth with the variant, one of `8`, `9`, `a` and `b`.
pub open spec fn uuid_text(s: Seq<char>) -> bool {
    &&& s.len() == 36
    &&& forall|i: int|
        0 <= i < 36 ==> if i == 8 || i == 13 || i == 18 || i == 23 {
            s[i] == '-'
        } else {
            hex_digit(#[trigger] s[i])
        }
    &&& s[14] == '4'
    &&& (s[19] == '8' || s[19] == '9' || s[19] == 'a' || s[19] == 'b')
}

/// A random identifier: `Uuid::new_v4`, written out with `to_string`.
/// Which identifier comes out is left open; its shape is that of every
/// version-4 identifier in the hyphenated lowercase form. The call does
/// not return where the system has no random bytes to give.
#[verifier::external_body]
fn fresh_uuid() -> (r: String)
    ensures
        uuid_text(r@),
{
    uuid::Uuid::new_v4().to_string()
}

/// The identifier of the agent: what the sources settle, or a random one
/// where they settle none.
pub fn agent_id(sources: &IdSources) -> (r: String)
    ensures
        sources.settle() matches Some(id) ==> r@ == id,
        sources.settle() is None ==> uuid_text(r@),
{
    match sources.settled_id() {
        Some(id) => id,
        None => fresh_uuid(),
    }
}

/// The name of the host, as `hostname::get` reports it; `None` where it
/// cannot be had or is not valid text. Nothing is claimed of the result.
#[verifier::external_body]
pub(crate) fn host_name() -> Option<String> {
    hostname::get().ok().and_then(|h| h.into_string().ok())
}

/// The moment the agent started, once it is known. Time is counted in
/// whole seconds on a clock that never runs backwards.
#[derive(Clone, Copy, Debug, PartialEq, Eq, Structural)]
pub struct Uptime {
    /// The reading of the clock at the start.
    pub started: Option<u64>,
}

impl Uptime {
    /// An agent whose start is not yet known.
    pub fn new() -> (r: Self)
        ensures
            r.started is None,
    {
        Uptime { started: None }
    }

    /// The start, given that the clock reads `now`: the start on record,
    /// or `now` where none is.
    pub open spec fn start_at(self, now: u64) -> u64 {
        match self.started {
            Some(s) => s,
            None => now,
        }
    }

    /// The seconds from the start to `now`; zero where `now` lies before
    /// the start.
    pub open spec fn seconds_at(self, now: u64) -> u64 {
        if now >= self.start_at(now) {
            (now - self.start_at(now)) as u64
        } else {
            0
        }
    }
}

/// Records `now` as the start of the agent, unless a start is on record.
pub fn init_uptime(uptime: &mut Uptime, now: u64)
    ensures
        final(uptime).started == Some(old(uptime).start_at(now)),
{
    if uptime.started.is_none() {
        uptime.started = Some(now);
    }
}

/// The seconds the agent has run when the clock reads `now`. The first
/// reading records the start where none is on record.
pub fn uptime_seconds(uptime: &mut Uptime, now: u64) -> (r: u64)
    ensures
        final(uptime).started == Some(old(uptime).start_at(now)),
        r == old(uptime).seconds_at(now),
{
    init_uptime(uptime, now);
    let start: u64 = match uptime.started {
        Some(s) => s,
        None => now,
    };
    if now >= start {
        now - start
    } else {
        0
    }
}

} // verus!
