//! The static query surface: the capability tags the daemon advertises
//! and its server-information tuple. Both are pure: they read no state,
//! change nothing, and return the same value on every call.

use vstd::prelude::*;

verus! {

/// The capability tags the daemon advertises, in order. Only tags the
/// daemon actually honors may appear here: callers rely on them.
pub open spec fn capabilities_model() -> Seq<Seq<char>> {
    seq![
        "action-icons"@,
        "actions"@,
        "body"@,
        "body-hyperlinks"@,
        "body-images"@,
        "body-markup"@,
        "icon-multi"@,
        "icon-static"@,
        "persistence"@,
        "sound"@,
    ]
}

/// The server-information tuple: daemon name, vendor, daemon version,
/// and the version of the notification interface it implements.
pub struct ServerInformation {
    pub name: String,
    pub vendor: String,
    pub version: String,
    pub spec_version: String,
}

/// Ordered list of supported capability tags. Static: no side effects,
/// and every call returns exactly `capabilities_model()`.
pub fn get_capabilities() -> (r: Vec<String>)
    ensures
        r@.map_values(|s: String| s@) == capabilities_model(),
{
    let mut v: Vec<String> = Vec::new();
    v.push("action-icons".to_owned());
    v.push("actions".to_owned());
    v.push("body".to_owned());
    v.push("body-hyperlinks".to_owned());
    v.push("body-images".to_owned());
    v.push("body-markup".to_owned());
    v.push("icon-multi".to_owned());
    v.push("icon-static".to_owned());
    v.push("persistence".to_owned());
    v.push("sound".to_owned());
    proof {
        assert(v@.map_values(|s: String| s@) =~= capabilities_model());
    }
    v
}

/// The daemon's identification tuple. Static: no side effects, and every
/// call returns the same four strings.
pub fn get_server_information() -> (r: ServerInformation)
    ensures
        r.name@ == "libfuckyou"@,
        r.vendor@ == "femmeromantic"@,
        r.version@ == "0.1.1"@,
        r.spec_version@ == "1.3"@,
{
    ServerInformation {
        name: "libfuckyou".to_owned(),
        vendor: "femmeromantic".to_owned(),
        version: "0.1.1".to_owned(),
        spec_version: "1.3".to_owned(),
    }
}

} // verus!
