use vstd::prelude::*;
use vstd::string::*;
use crate::errors::ErrorKind;

verus! {

// ---------------------------------------------------------------------------
// Run parameters. The caller resolves each field from the command line or a
// configuration document and hands the raw optional values in here; this
// module decides whether they make a complete record, and fails atomically
// with the source's classified error when any field is missing.
// ---------------------------------------------------------------------------

/// The fully populated parameters of one run: the link to convert and the
/// host, credentials and remote directory to deliver to. Never built
/// partially filled.
pub struct Arguments {
    pub link: String,
    pub host: String,
    pub user: String,
    pub pass: String,
    pub dir: String,
}

/// Builds the parameter record from its five resolved fields, verbatim.
pub fn to_argument(link: &str, host: &str, user: &str, pass: &str, dir: &str) -> (a: Arguments)
    ensures
        a.link@ == link@,
        a.host@ == host@,
        a.user@ == user@,
        a.pass@ == pass@,
        a.dir@ == dir@,
{
    Arguments {
        link: link.to_owned(),
        host: host.to_owned(),
        user: user.to_owned(),
        pass: pass.to_owned(),
        dir: dir.to_owned(),
    }
}

/// Assembles the record from values looked up in a configuration document.
/// Succeeds exactly when every field was found; a single missing field fails
/// the whole resolution with `ConfigurationMissingOrInvalid`.
pub fn argument_from_config(
    link: Option<&str>,
    host: Option<&str>,
    user: Option<&str>,
    pass: Option<&str>,
    dir: Option<&str>,
) -> (r: Result<Arguments, ErrorKind>)
    ensures
        link is Some && host is Some && user is Some && pass is Some && dir is Some ==> (
        r matches Ok(a) && a.link@ == link->0@ && a.host@ == host->0@ && a.user@ == user->0@
            && a.pass@ == pass->0@ && a.dir@ == dir->0@),
        !(link is Some && host is Some && user is Some && pass is Some && dir is Some) ==> (r
            matches Err(e) && e == ErrorKind::ConfigurationMissingOrInvalid),
{
    if let (Some(l), Some(h), Some(u), Some(p), Some(d)) = (link, host, user, pass, dir) {
        Ok(to_argument(l, h, u, p, d))
    } else {
        Err(ErrorKind::ConfigurationMissingOrInvalid)
    }
}

/// Assembles the record from explicitly passed flag values. Succeeds exactly
/// when every field was given; a single missing field fails the whole
/// resolution with `ArgumentsIncomplete`.
pub fn arguments_from_explicit(
    link: Option<&str>,
    host: Option<&str>,
    user: Option<&str>,
    pass: Option<&str>,
    dir: Option<&str>,
) -> (r: Result<Arguments, ErrorKind>)
    ensures
        link is Some && host is Some && user is Some && pass is Some && dir is Some ==> (
        r matches Ok(a) && a.link@ == link->0@ && a.host@ == host->0@ && a.user@ == user->0@
            && a.pass@ == pass->0@ && a.dir@ == dir->0@),
        !(link is Some && host is Some && user is Some && pass is Some && dir is Some) ==> (r
            matches Err(e) && e == ErrorKind::ArgumentsIncomplete),
{
    if let (Some(l), Some(h), Some(u), Some(p), Some(d)) = (link, host, user, pass, dir) {
        Ok(to_argument(l, h, u, p, d))
    } else {
        Err(ErrorKind::ArgumentsIncomplete)
    }
}

/// Decides where the parameters come from: the configuration document is
/// used when a config file was named explicitly, or when no host flag was
/// given; only otherwise is the explicit-flag quadruplet used.
pub fn use_config_source(config_given: bool, host_given: bool) -> (b: bool)
    ensures
        b == (config_given || !host_given),
{
    config_given || !host_given
}

} // verus!
