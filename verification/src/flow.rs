//! The decisions the client takes between its requests: which flow a link
//! takes, when the API key is asked for, kept or forgotten, and what each
//! reply about an uploaded magnet leads to.
use crate::api::{user_info, user_info_url};
use crate::progress::{downloading_line, downloading_text, uploading_line, uploading_text};
use crate::response::{Error, Res};
use crate::text::{
    all_white_space, has_prefix, is_white_space, same_text, starts_with, trim,
    trim_is_empty_iff_blank, trim_is_slice, trim_text,
};
use crate::types::{Config, MagnetLink, MagnetStatus, MagnetUpload, UnlockLink, User};
use vstd::prelude::*;

verus! {

/// The flow a link given on the command line takes.
#[derive(Debug, PartialEq, Eq, Structural)]
pub enum LinkKind {
    /// A magnet: uploaded, polled until ready, then unlocked.
    Magnet,
    /// A premium link: unlocked at once.
    Premium,
    /// Neither: nothing is done.
    Other,
}

/// Links that start with `magnet` are magnets, the others that start with
/// `http` premium links.
pub open spec fn link_kind(link: Seq<char>) -> LinkKind {
    if has_prefix(link, "magnet"@) {
        LinkKind::Magnet
    } else if has_prefix(link, "http"@) {
        LinkKind::Premium
    } else {
        LinkKind::Other
    }
}

/// A link takes the magnet flow exactly when its first six characters are
/// `m`, `a`, `g`, `n`, `e`, `t`; otherwise the premium flow exactly when its
/// first four are `h`, `t`, `t`, `p`.
pub proof fn link_kind_by_first_characters(link: Seq<char>)
    ensures
        (link_kind(link) == LinkKind::Magnet) <==> (link.len() >= 6 && link[0] == 'm' && link[1]
            == 'a' && link[2] == 'g' && link[3] == 'n' && link[4] == 'e' && link[5] == 't'),
        (link_kind(link) == LinkKind::Premium) <==> (!(link.len() >= 6 && link[0] == 'm'
            && link[1] == 'a' && link[2] == 'g' && link[3] == 'n' && link[4] == 'e' && link[5]
            == 't') && link.len() >= 4 && link[0] == 'h' && link[1] == 't' && link[2] == 't'
            && link[3] == 'p'),
{
    reveal_strlit("magnet");
    reveal_strlit("http");
    let m = "magnet"@;
    let h = "http"@;
    assert(m =~= seq!['m', 'a', 'g', 'n', 'e', 't']);
    assert(h =~= seq!['h', 't', 't', 'p']);
    if link.len() >= 6 {
        let p = link.subrange(0, 6);
        assert(p[0] == link[0] && p[1] == link[1] && p[2] == link[2] && p[3] == link[3] && p[4]
            == link[4] && p[5] == link[5]);
        if link[0] == 'm' && link[1] == 'a' && link[2] == 'g' && link[3] == 'n' && link[4] == 'e'
            && link[5] == 't' {
            assert(p =~= m);
        }
    }
    if link.len() >= 4 {
        let p = link.subrange(0, 4);
        assert(p[0] == link[0] && p[1] == link[1] && p[2] == link[2] && p[3] == link[3]);
        if link[0] == 'h' && link[1] == 't' && link[2] == 't' && link[3] == 'p' {
            assert(p =~= h);
        }
    }
}

/// Tells which flow `link` takes.
pub fn classify_link(link: &str) -> (kind: LinkKind)
    ensures
        kind == link_kind(link@),
{
    if starts_with(link, "magnet") {
        LinkKind::Magnet
    } else if starts_with(link, "http") {
        LinkKind::Premium
    } else {
        LinkKind::Other
    }
}

/// Whether a configuration lacks an API key, so that one is asked for.
pub open spec fn asks_for_key(config: Config) -> bool {
    config.apikey@.len() == 0
}

/// What the client does first with its configuration.
#[derive(Debug)]
pub enum ConfigStep {
    /// There is no key: ask the user for one and store it.
    AskForKey,
    /// Check the stored key with a request to this URL.
    Validate(String),
}

/// Asks for a key when there is none, and checks the stored key otherwise.
pub fn config_start(config: &Config) -> (step: ConfigStep)
    ensures
        asks_for_key(*config) <==> step is AskForKey,
        step matches ConfigStep::Validate(url) ==> url@ == user_info_url(config.apikey@),
{
    if config.apikey.as_str().unicode_len() == 0 {
        ConfigStep::AskForKey
    } else {
        ConfigStep::Validate(user_info(config.apikey.as_str()))
    }
}

/// The key kept from the line the user typed: the line without surrounding
/// white space.
pub open spec fn key_entered(line: Seq<char>, after: Config) -> bool {
    after.apikey@ == trim(line)
}

/// Stores the key the user typed on `line`.
pub fn set_apikey(config: &mut Config, line: &str)
    ensures
        key_entered(line@, *final(config)),
{
    config.apikey = trim_text(line);
}

/// A typed line leaves the configuration without a key exactly when it is
/// blank, so that the next run asks again.
pub proof fn blank_line_asks_again(line: Seq<char>, after: Config)
    requires
        key_entered(line, after),
    ensures
        asks_for_key(after) == all_white_space(line),
{
    trim_is_empty_iff_blank(line);
}

/// The stored key is the whole typed line less its surrounding white space,
/// whatever its length: the slice `line[i..j]` where only white space lies
/// outside it and, unless it is empty, it starts and ends with a character
/// that is not white space.
pub proof fn typed_key_is_whole_trimmed_line(line: Seq<char>, after: Config) -> (bounds: (
    int,
    int,
))
    requires
        key_entered(line, after),
    ensures
        0 <= bounds.0 <= bounds.1 <= line.len(),
        after.apikey@ == line.subrange(bounds.0, bounds.1),
        forall|k: int| 0 <= k < bounds.0 ==> is_white_space(#[trigger] line[k]),
        forall|k: int| bounds.1 <= k < line.len() ==> is_white_space(#[trigger] line[k]),
        bounds.0 < bounds.1 ==> !is_white_space(line[bounds.0]) && !is_white_space(
            line[bounds.1 - 1],
        ),
{
    trim_is_slice(line)
}

/// A configuration asks for a key exactly when its key is the empty text.
pub proof fn asks_for_key_iff_empty(config: Config)
    ensures
        asks_for_key(config) <==> config.apikey@ == Seq::<char>::empty(),
{
    if config.apikey@.len() == 0 {
        assert(config.apikey@ =~= Seq::<char>::empty());
    }
}

/// How the check of the stored key ended.
#[derive(Debug)]
pub enum Login {
    /// The service refused the key: it is forgotten and the run ends.
    Rejected,
    /// The service knows the key; the account's user name.
    LoggedIn(String),
}

/// The check of the key: a refused key is cleared, an accepted one is kept
/// and its user named.
pub open spec fn login_post(before: Config, reply: Res<User>, after: Config, outcome: Login) -> bool {
    match reply {
        Res::Error(_) => outcome is Rejected && after.apikey@.len() == 0,
        Res::Data(u) => outcome == Login::LoggedIn(u.user.username) && after == before,
    }
}

/// Takes the service's reply to the check of the stored key.
pub fn check_login(config: &mut Config, reply: Res<User>) -> (outcome: Login)
    ensures
        login_post(*old(config), reply, *final(config), outcome),
{
    match reply {
        Res::Error(_) => {
            config.apikey = String::new();
            Login::Rejected
        },
        Res::Data(u) => Login::LoggedIn(u.user.username),
    }
}

/// A key the service refused is asked for again on the next run.
pub proof fn rejected_key_is_asked_again(
    before: Config,
    reply: Res<User>,
    after: Config,
    outcome: Login,
)
    requires
        login_post(before, reply, after, outcome),
        outcome is Rejected,
    ensures
        asks_for_key(after),
{
}

/// A key the service accepted is checked again, not asked for, on the next
/// run.
pub proof fn accepted_key_is_kept(before: Config, reply: Res<User>, after: Config, outcome: Login)
    requires
        login_post(before, reply, after, outcome),
        outcome is LoggedIn,
        !asks_for_key(before),
    ensures
        after == before,
        !asks_for_key(after),
{
}

/// Whenever the service answers the key check with data, the run logs in
/// as the reply's user name and the configuration is left as it was, for
/// every stored key.
pub proof fn data_reply_logs_in(before: Config, u: User, after: Config, outcome: Login)
    requires
        login_post(before, Res::Data(u), after, outcome),
    ensures
        outcome == Login::LoggedIn(u.user.username),
        after == before,
{
}

/// Whenever the service answers the key check with an error, the key is
/// forgotten and the run ends.
pub proof fn error_reply_forgets_key(before: Config, e: Error, after: Config, outcome: Login)
    requires
        login_post(before, Res::Error(e), after, outcome),
    ensures
        outcome is Rejected,
        after.apikey@ == Seq::<char>::empty(),
{
    assert(after.apikey@ =~= Seq::<char>::empty());
}

/// What follows the upload of a magnet.
#[derive(Debug)]
pub enum UploadStep {
    /// The service refused the request: its error is shown.
    Failed(Error),
    /// The service refused the magnet: its error is shown and the run fails.
    Refused(Error),
    /// The reply lists no magnet.
    NoMagnet,
    /// The first magnet has no id.
    NoId,
    /// Poll the state of the magnet with this id.
    Poll(u64),
}

/// Takes the reply to the upload of a magnet; the first magnet it lists is
/// the uploaded one.
pub fn upload_step(reply: Res<MagnetUpload>) -> (step: UploadStep)
    ensures
        match reply {
            Res::Error(e) => step == UploadStep::Failed(e),
            Res::Data(d) => if d.magnets@.len() == 0 {
                step is NoMagnet
            } else {
                match d.magnets@[0].error {
                    Some(e) => step == UploadStep::Refused(e),
                    None => match d.magnets@[0].id {
                        Some(id) => step == UploadStep::Poll(id),
                        None => step is NoId,
                    },
                }
            },
        },
{
    match reply {
        Res::Error(e) => UploadStep::Failed(e),
        Res::Data(d) => {
            let mut magnets = d.magnets;
            if magnets.len() == 0 {
                UploadStep::NoMagnet
            } else {
                let first = magnets.remove(0);
                match first.error {
                    Some(e) => UploadStep::Refused(e),
                    None => match first.id {
                        Some(id) => UploadStep::Poll(id),
                        None => UploadStep::NoId,
                    },
                }
            }
        },
    }
}

/// What follows a reply about the state of an uploaded magnet.
#[derive(Debug)]
pub enum PollStep {
    /// The service refused the request: its error is shown and the run fails.
    Failed(Error),
    /// The magnet is ready but is a folder of these links, which is not
    /// supported: the run fails.
    Folder(Vec<MagnetLink>),
    /// The magnet is ready but has no link.
    NoLinks,
    /// The magnet is ready: unlock its one link.
    Unlock(String),
    /// The service is downloading or uploading the magnet: show this line,
    /// wait a second and poll again.
    Progress(String),
    /// Any other state: show it and poll again at once.
    Status(String),
}

/// Whether a poll step waits a second before the next poll.
pub open spec fn waits(step: PollStep) -> bool {
    step is Progress
}

/// Whether the reply says the service is downloading or uploading the magnet.
pub open spec fn transferring(reply: Res<MagnetStatus>) -> bool {
    match reply {
        Res::Data(d) => d.magnets.status@ == "Downloading"@ || d.magnets.status@ == "Uploading"@,
        Res::Error(_) => false,
    }
}

/// Whether the reply says the magnet is ready and has exactly one link.
pub open spec fn ready_with_one_link(reply: Res<MagnetStatus>) -> bool {
    match reply {
        Res::Data(d) => d.magnets.status@ == "Ready"@ && d.magnets.links@.len() == 1,
        Res::Error(_) => false,
    }
}

/// The client waits between polls exactly when the reply's state is
/// `Downloading` or `Uploading`, and unlocks only when it is `Ready` with
/// one link.
pub proof fn poll_states_by_name(reply: Res<MagnetStatus>)
    ensures
        transferring(reply) <==> (reply matches Res::Data(d) && (d.magnets.status@ == seq![
            'D',
            'o',
            'w',
            'n',
            'l',
            'o',
            'a',
            'd',
            'i',
            'n',
            'g',
        ] || d.magnets.status@ == seq!['U', 'p', 'l', 'o', 'a', 'd', 'i', 'n', 'g'])),
        ready_with_one_link(reply) <==> (reply matches Res::Data(d) && d.magnets.status@
            == seq!['R', 'e', 'a', 'd', 'y'] && d.magnets.links@.len() == 1),
{
    reveal_strlit("Downloading");
    reveal_strlit("Uploading");
    reveal_strlit("Ready");
    assert("Downloading"@ =~= seq!['D', 'o', 'w', 'n', 'l', 'o', 'a', 'd', 'i', 'n', 'g']);
    assert("Uploading"@ =~= seq!['U', 'p', 'l', 'o', 'a', 'd', 'i', 'n', 'g']);
    assert("Ready"@ =~= seq!['R', 'e', 'a', 'd', 'y']);
}

/// Takes a reply about the state of an uploaded magnet.
pub fn poll_step(reply: Res<MagnetStatus>) -> (step: PollStep)
    ensures
        match reply {
            Res::Error(e) => step == PollStep::Failed(e),
            Res::Data(d) => {
                let m = d.magnets;
                if m.status@ == "Ready"@ {
                    if m.links@.len() > 1 {
                        step == PollStep::Folder(m.links)
                    } else if m.links@.len() == 0 {
                        step is NoLinks
                    } else {
                        step == PollStep::Unlock(m.links@[0].link)
                    }
                } else if m.status@ == "Downloading"@ {
                    step matches PollStep::Progress(line) && line@ == downloading_text(m)
                } else if m.status@ == "Uploading"@ {
                    step matches PollStep::Progress(line) && line@ == uploading_text(m)
                } else {
                    step == PollStep::Status(m.status)
                }
            },
        },
        waits(step) <==> transferring(reply),
        step is Unlock ==> ready_with_one_link(reply),
{
    proof {
        reveal_strlit("Ready");
        reveal_strlit("Downloading");
        reveal_strlit("Uploading");
    }
    match reply {
        Res::Error(e) => PollStep::Failed(e),
        Res::Data(d) => {
            let m = d.magnets;
            // distinct lengths tell the three states apart
            assert("Ready"@.len() == 5);
            if same_text(m.status.as_str(), "Ready") {
                if m.links.len() > 1 {
                    PollStep::Folder(m.links)
                } else if m.links.len() == 0 {
                    PollStep::NoLinks
                } else {
                    let mut links = m.links;
                    let first = links.remove(0);
                    PollStep::Unlock(first.link)
                }
            } else if same_text(m.status.as_str(), "Downloading") {
                PollStep::Progress(downloading_line(&m))
            } else if same_text(m.status.as_str(), "Uploading") {
                PollStep::Progress(uploading_line(&m))
            } else {
                PollStep::Status(m.status)
            }
        },
    }
}

/// What follows the reply to a link unlock request.
#[derive(Debug)]
pub enum UnlockStep {
    /// The service refused the request: its error is shown.
    Failed(Error),
    /// Only show the unlocked link, and end the run.
    Print(String),
    /// Download the unlocked link.
    Download(String),
}

/// Takes the reply to a link unlock request; with `nodl` the link is only
/// shown, not downloaded.
pub fn unlock_step(reply: Res<UnlockLink>, nodl: bool) -> (step: UnlockStep)
    ensures
        match reply {
            Res::Error(e) => step == UnlockStep::Failed(e),
            Res::Data(u) => if nodl {
                step == UnlockStep::Print(u.link)
            } else {
                step == UnlockStep::Download(u.link)
            },
        },
{
    match reply {
        Res::Error(e) => UnlockStep::Failed(e),
        Res::Data(u) => if nodl {
            UnlockStep::Print(u.link)
        } else {
            UnlockStep::Download(u.link)
        },
    }
}

} // verus!
