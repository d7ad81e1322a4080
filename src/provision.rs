//! What provisioning and restoring a server's container consist of: the
//! image tag, the bootstrap script, the bind source, the container
//! definition, and the ordered steps that the daemon and the filesystem
//! carry out.

use vstd::prelude::*;
use vstd::string::*;
use crate::naming::{container_name, container_name_spec, script_path, script_path_spec, volume_path, volume_path_spec};
use crate::text::chars_of;
use crate::version::ServerJarInfo;

verus! {

/// The character of a decimal digit.
pub open spec fn digit_char(d: nat) -> char {
    seq!['0', '1', '2', '3', '4', '5', '6', '7', '8', '9'][d as int]
}

/// The decimal text of `n`, without leading zeros.
pub open spec fn decimal(n: nat) -> Seq<char>
    decreases n,
{
    if n < 10 {
        seq![digit_char(n)]
    } else {
        decimal(n / 10).push(digit_char(n % 10))
    }
}

fn digit(d: u32) -> (c: char)
    requires
        d < 10,
    ensures
        c == digit_char(d as nat),
{
    if d == 0 {
        '0'
    } else if d == 1 {
        '1'
    } else if d == 2 {
        '2'
    } else if d == 3 {
        '3'
    } else if d == 4 {
        '4'
    } else if d == 5 {
        '5'
    } else if d == 6 {
        '6'
    } else if d == 7 {
        '7'
    } else if d == 8 {
        '8'
    } else {
        '9'
    }
}

/// The decimal text of `n`.
pub fn decimal_string(n: u32) -> (r: String)
    ensures
        r@ == decimal(n as nat),
    decreases n,
{
    if n < 10 {
        let mut s = String::new();
        s.push(digit(n));
        proof {
            assert(s@ =~= seq![digit_char(n as nat)]);
        }
        s
    } else {
        let mut s = decimal_string(n / 10);
        s.push(digit(n % 10));
        s
    }
}

/// `openjdk:<major>`.
pub open spec fn image_tag_spec(major: u8) -> Seq<char> {
    "openjdk:"@ + decimal(major as nat)
}

/// The container image that runs servers needing JDK `major`.
pub fn image_tag(major: u8) -> (r: String)
    ensures
        r@ == image_tag_spec(major),
{
    let d = decimal_string(major as u32);
    let mut r = String::from_str("openjdk:");
    r.append(d.as_str());
    r
}

/// `s` with every CR LF pair replaced by a single LF.
pub open spec fn lf_only(s: Seq<char>) -> Seq<char>
    decreases s.len(),
{
    if s.len() == 0 {
        s
    } else if s.len() >= 2 && s[0] == '\r' && s[1] == '\n' {
        seq!['\n'] + lf_only(s.subrange(2, s.len() as int))
    } else {
        seq![s[0]] + lf_only(s.subrange(1, s.len() as int))
    }
}

/// Replaces each CR LF pair of `s` by LF.
pub fn normalize_line_endings(s: &str) -> (r: String)
    ensures
        r@ == lf_only(s@),
{
    let v = chars_of(s);
    let n = v.len();
    let mut out = String::new();
    let mut i: usize = 0;
    proof {
        assert(v@.subrange(0, n as int) =~= v@);
        assert(out@ + lf_only(v@) =~= lf_only(v@));
    }
    while i < n
        invariant
            n == v@.len(),
            v@ == s@,
            i <= n,
            lf_only(s@) == out@ + lf_only(v@.subrange(i as int, n as int)),
        decreases n - i,
    {
        let ghost rest = v@.subrange(i as int, n as int);
        if i + 1 < n && v[i] == '\r' && v[i + 1] == '\n' {
            proof {
                assert(rest.subrange(2, rest.len() as int) =~= v@.subrange(i + 2, n as int));
                assert(out@.push('\n') + lf_only(v@.subrange(i + 2, n as int)) =~= out@ + (seq![
                    '\n',
                ] + lf_only(v@.subrange(i + 2, n as int))));
            }
            out.push('\n');
            i = i + 2;
        } else {
            let c = v[i];
            proof {
                assert(rest.subrange(1, rest.len() as int) =~= v@.subrange(i + 1, n as int));
                assert(out@.push(c) + lf_only(v@.subrange(i + 1, n as int)) =~= out@ + (seq![c]
                    + lf_only(v@.subrange(i + 1, n as int))));
            }
            out.push(c);
            i = i + 1;
        }
    }
    proof {
        assert(v@.subrange(n as int, n as int) =~= Seq::<char>::empty());
        assert(out@ + Seq::<char>::empty() =~= out@);
    }
    out
}

/// `JAR_URL=<url>` on the first line, then the payload with LF line endings.
pub open spec fn bootstrap_script_spec(jar_url: Seq<char>, payload: Seq<char>) -> Seq<char> {
    "JAR_URL="@ + jar_url + seq!['\n'] + lf_only(payload)
}

/// The bootstrap script written into a fresh server's volume. `payload` is
/// the shipped script that downloads `$JAR_URL`, accepts the EULA and
/// launches the server.
pub fn bootstrap_script(jar_url: &str, payload: &str) -> (r: String)
    ensures
        r@ == bootstrap_script_spec(jar_url@, payload@),
{
    let body = normalize_line_endings(payload);
    let mut r = String::from_str("JAR_URL=");
    r.append(jar_url);
    r.push('\n');
    r.append(body.as_str());
    r
}

/// The extended-length prefix `\\?\` that Windows path canonicalisation adds.
pub open spec fn extended_prefix() -> Seq<char> {
    seq!['\\', '\\', '?', '\\']
}

/// `abs` without a leading extended-length prefix when on Windows; `abs`
/// itself otherwise.
pub open spec fn bind_source_spec(abs: Seq<char>, windows: bool) -> Seq<char> {
    if windows && abs.len() >= 4 && abs.subrange(0, 4) == extended_prefix() {
        abs.subrange(4, abs.len() as int)
    } else {
        abs
    }
}

/// The host path handed to the daemon as a bind source. The daemon rejects
/// extended-length prefixes, so on Windows a leading `\\?\` is stripped.
pub fn bind_source(abs: &str, windows: bool) -> (r: String)
    ensures
        r@ == bind_source_spec(abs@, windows),
{
    let v = chars_of(abs);
    if windows && v.len() >= 4 && v[0] == '\\' && v[1] == '\\' && v[2] == '?' && v[3] == '\\' {
        proof {
            assert(abs@.subrange(0, 4) =~= extended_prefix());
        }
        String::from_str(abs.substring_char(4, v.len()))
    } else {
        proof {
            if windows && abs@.len() >= 4 {
                if abs@.subrange(0, 4) == extended_prefix() {
                    assert(abs@.subrange(0, 4)[0] == abs@[0]);
                    assert(abs@.subrange(0, 4)[1] == abs@[1]);
                    assert(abs@.subrange(0, 4)[2] == abs@[2]);
                    assert(abs@.subrange(0, 4)[3] == abs@[3]);
                }
            }
        }
        String::from_str(abs)
    }
}

/// The container definition handed to the daemon for one server.
pub struct ContainerSpec {
    /// `waitress-<id>`.
    pub name: String,
    /// `openjdk:<major>`.
    pub image: String,
    /// `sh -c "cd /data && sh provision.sh"`.
    pub cmd: Vec<String>,
    /// `25565/tcp`: exposed, and the key of the one port binding.
    pub container_port: String,
    /// `127.0.0.1`: the server listens on loopback only.
    pub host_ip: String,
    /// The record's port, in decimal.
    pub host_port: String,
    /// `<bind source>/:/data`.
    pub bind: String,
    /// `/data`: the anonymous volume slot declared by the container.
    pub volume: String,
    /// Stdin stays open so that the console can write to it.
    pub open_stdin: bool,
}

/// The three words of the container's command.
pub open spec fn command_spec() -> Seq<Seq<char>> {
    seq!["sh"@, "-c"@, "cd /data && sh provision.sh"@]
}

impl ContainerSpec {
    /// The definition of server `id`'s container, running `image`, publishing
    /// the game port on `127.0.0.1:<port>` and binding `source` at `/data`.
    pub fn new(id: u128, image: &str, port: u16, source: &str) -> (r: ContainerSpec)
        ensures
            r.name@ == container_name_spec(id),
            r.image@ == image@,
            r.cmd@.len() == 3,
            forall|i: int| 0 <= i < 3 ==> #[trigger] r.cmd@[i]@ == command_spec()[i],
            r.container_port@ == "25565/tcp"@,
            r.host_ip@ == "127.0.0.1"@,
            r.host_port@ == decimal(port as nat),
            r.bind@ == source@ + "/:/data"@,
            r.volume@ == "/data"@,
            r.open_stdin,
    {
        let mut cmd: Vec<String> = Vec::new();
        cmd.push(String::from_str("sh"));
        cmd.push(String::from_str("-c"));
        cmd.push(String::from_str("cd /data && sh provision.sh"));
        let mut bind = String::from_str(source);
        bind.append("/:/data");
        ContainerSpec {
            name: container_name(id),
            image: String::from_str(image),
            cmd,
            container_port: String::from_str("25565/tcp"),
            host_ip: String::from_str("127.0.0.1"),
            host_port: decimal_string(port as u32),
            bind,
            volume: String::from_str("/data"),
            open_stdin: true,
        }
    }
}

/// One step of provisioning, carried out by the caller in order.
pub enum ProvisionStep {
    /// Pull the image; an image already present is success.
    PullImage { image: String },
    /// Create the directory if it does not exist.
    EnsureDir { path: String },
    /// Create the daemon-managed volume of that name, driver `local`.
    CreateVolume { name: String },
    /// Write the file with these contents.
    WriteFile { path: String, contents: String },
    /// Canonicalise this directory into the bind source of the container
    /// (see `bind_source`) and create the container from `ContainerSpec::new`.
    CreateContainer { dir: String },
    /// Start the named container; already running is success.
    StartContainer { name: String },
}

/// A provisioning step as plain values.
pub enum StepView {
    PullImage(Seq<char>),
    EnsureDir(Seq<char>),
    CreateVolume(Seq<char>),
    WriteFile(Seq<char>, Seq<char>),
    CreateContainer(Seq<char>),
    StartContainer(Seq<char>),
}

impl View for ProvisionStep {
    type V = StepView;

    open spec fn view(&self) -> StepView {
        match self {
            ProvisionStep::PullImage { image } => StepView::PullImage(image@),
            ProvisionStep::EnsureDir { path } => StepView::EnsureDir(path@),
            ProvisionStep::CreateVolume { name } => StepView::CreateVolume(name@),
            ProvisionStep::WriteFile { path, contents } => StepView::WriteFile(path@, contents@),
            ProvisionStep::CreateContainer { dir } => StepView::CreateContainer(dir@),
            ProvisionStep::StartContainer { name } => StepView::StartContainer(name@),
        }
    }
}

/// The steps that provision server `id` from scratch: pull, prepare the
/// directories, create the named volume, write the bootstrap script, create
/// the container and start it.
pub open spec fn fresh_steps(id: u128, image: Seq<char>, script: Seq<char>) -> Seq<StepView> {
    seq![
        StepView::PullImage(image),
        StepView::EnsureDir("volumes"@),
        StepView::EnsureDir(volume_path_spec(id)),
        StepView::CreateVolume(container_name_spec(id)),
        StepView::WriteFile(script_path_spec(id), script),
        StepView::CreateContainer(volume_path_spec(id)),
        StepView::StartContainer(container_name_spec(id)),
    ]
}

/// The steps that recreate server `id`'s container from its stored image:
/// no named volume is created and the existing script is kept.
pub open spec fn restore_steps(id: u128, image: Seq<char>) -> Seq<StepView> {
    seq![
        StepView::PullImage(image),
        StepView::EnsureDir("volumes"@),
        StepView::EnsureDir(volume_path_spec(id)),
        StepView::CreateContainer(volume_path_spec(id)),
        StepView::StartContainer(container_name_spec(id)),
    ]
}

/// The views of a list of steps.
pub open spec fn step_views(steps: Seq<ProvisionStep>) -> Seq<StepView> {
    steps.map_values(|s: ProvisionStep| s@)
}

fn push_common_head(steps: &mut Vec<ProvisionStep>, id: u128, image: &str)
    requires
        old(steps)@.len() == 0,
    ensures
        final(steps)@.len() == 3,
        final(steps)@[0]@ == StepView::PullImage(image@),
        final(steps)@[1]@ == StepView::EnsureDir("volumes"@),
        final(steps)@[2]@ == StepView::EnsureDir(volume_path_spec(id)),
{
    steps.push(ProvisionStep::PullImage { image: String::from_str(image) });
    steps.push(ProvisionStep::EnsureDir { path: String::from_str("volumes") });
    steps.push(ProvisionStep::EnsureDir { path: volume_path(id) });
}

/// The plan for a new server: the image follows the resolved JDK major
/// version and the script carries the jar URL.
pub fn fresh_plan(id: u128, jar: &ServerJarInfo, payload: &str) -> (r: Vec<ProvisionStep>)
    ensures
        step_views(r@) == fresh_steps(
            id,
            image_tag_spec(jar.java_version),
            bootstrap_script_spec(jar.url@, payload@),
        ),
{
    let image = image_tag(jar.java_version);
    let mut steps: Vec<ProvisionStep> = Vec::new();
    push_common_head(&mut steps, id, image.as_str());
    steps.push(ProvisionStep::CreateVolume { name: container_name(id) });
    steps.push(
        ProvisionStep::WriteFile {
            path: script_path(id),
            contents: bootstrap_script(jar.url.as_str(), payload),
        },
    );
    steps.push(ProvisionStep::CreateContainer { dir: volume_path(id) });
    steps.push(ProvisionStep::StartContainer { name: container_name(id) });
    assert(step_views(steps@) =~= fresh_steps(
        id,
        image_tag_spec(jar.java_version),
        bootstrap_script_spec(jar.url@, payload@),
    ));
    steps
}

/// The plan that recreates a server's container from the image its record
/// stores, without touching the volume's contents.
pub fn restore_plan(id: u128, image: &str) -> (r: Vec<ProvisionStep>)
    ensures
        step_views(r@) == restore_steps(id, image@),
{
    let mut steps: Vec<ProvisionStep> = Vec::new();
    push_common_head(&mut steps, id, image);
    steps.push(ProvisionStep::CreateContainer { dir: volume_path(id) });
    steps.push(ProvisionStep::StartContainer { name: container_name(id) });
    assert(step_views(steps@) =~= restore_steps(id, image@));
    steps
}

} // verus!
