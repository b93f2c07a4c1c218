//! The decision side of the OS permission checks: the fixed permission and
//! automation-app tables, the System Settings target of each permission, and
//! the pairing of probe outcomes with the tables. The probes themselves are
//! OS scripting calls; the caller runs them and hands their boolean verdicts
//! in.

use vstd::prelude::*;
use vstd::string::*;
use crate::text::str_eq;

verus! {

/// The probe outcomes of the five checked permissions.
pub struct PermissionProbes {
    pub full_disk: bool,
    pub accessibility: bool,
    pub screen_recording: bool,
    pub contacts: bool,
    pub automation: bool,
}

/// Pairs each permission name with its probe outcome, in the fixed order the
/// permissions are reported.
pub fn check_all(probes: &PermissionProbes) -> (r: Vec<(String, bool)>)
    ensures
        r@.map_values(|p: (String, bool)| (p.0@, p.1)) == seq![
            ("full_disk"@, probes.full_disk),
            ("accessibility"@, probes.accessibility),
            ("screen_recording"@, probes.screen_recording),
            ("contacts"@, probes.contacts),
            ("automation"@, probes.automation),
        ],
{
    let mut v: Vec<(String, bool)> = Vec::new();
    v.push(("full_disk".to_owned(), probes.full_disk));
    v.push(("accessibility".to_owned(), probes.accessibility));
    v.push(("screen_recording".to_owned(), probes.screen_recording));
    v.push(("contacts".to_owned(), probes.contacts));
    v.push(("automation".to_owned(), probes.automation));
    proof {
        assert(v@.map_values(|p: (String, bool)| (p.0@, p.1)) =~~= seq![
            ("full_disk"@, probes.full_disk),
            ("accessibility"@, probes.accessibility),
            ("screen_recording"@, probes.screen_recording),
            ("contacts"@, probes.contacts),
            ("automation"@, probes.automation),
        ]);
    }
    v
}

/// The System Settings pane a permission is granted in, by permission name.
pub open spec fn spec_settings_panes() -> Seq<(Seq<char>, Seq<char>)> {
    seq![
        ("full_disk"@, "x-apple.systempreferences:com.apple.preference.security?Privacy_AllFiles"@),
        (
            "accessibility"@,
            "x-apple.systempreferences:com.apple.preference.security?Privacy_Accessibility"@,
        ),
        (
            "screen_recording"@,
            "x-apple.systempreferences:com.apple.preference.security?Privacy_ScreenCapture"@,
        ),
        ("contacts"@, "x-apple.systempreferences:com.apple.preference.security?Privacy_Contacts"@),
        (
            "automation"@,
            "x-apple.systempreferences:com.apple.preference.security?Privacy_Automation"@,
        ),
    ]
}

/// The apps that need the Automation permission, each with the benign script
/// that triggers (or probes) the permission dialog for it.
pub open spec fn spec_automation_apps() -> Seq<(Seq<char>, Seq<char>)> {
    seq![
        ("Calendar"@, "tell application \"Calendar\" to get name"@),
        ("Contacts"@, "tell application \"Contacts\" to get name"@),
        ("Finder"@, "tell application \"Finder\" to get name"@),
        ("Messages"@, "tell application \"Messages\" to get name"@),
        ("Music"@, "tell application \"Music\" to get name"@),
        ("Notes"@, "tell application \"Notes\" to get name"@),
        ("Reminders"@, "tell application \"Reminders\" to get name"@),
        ("Safari"@, "tell application \"Safari\" to get name"@),
        ("Google Chrome"@, "tell application \"Google Chrome\" to get name"@),
        ("System Events"@, "tell application \"System Events\" to get name"@),
    ]
}

/// Builds the automation-app table: each app name with its probe script.
pub fn automation_apps() -> (r: Vec<(String, String)>)
    ensures
        r@.map_values(|p: (String, String)| (p.0@, p.1@)) == spec_automation_apps(),
{
    let mut v: Vec<(String, String)> = Vec::new();
    v.push(("Calendar".to_owned(), "tell application \"Calendar\" to get name".to_owned()));
    v.push(("Contacts".to_owned(), "tell application \"Contacts\" to get name".to_owned()));
    v.push(("Finder".to_owned(), "tell application \"Finder\" to get name".to_owned()));
    v.push(("Messages".to_owned(), "tell application \"Messages\" to get name".to_owned()));
    v.push(("Music".to_owned(), "tell application \"Music\" to get name".to_owned()));
    v.push(("Notes".to_owned(), "tell application \"Notes\" to get name".to_owned()));
    v.push(("Reminders".to_owned(), "tell application \"Reminders\" to get name".to_owned()));
    v.push(("Safari".to_owned(), "tell application \"Safari\" to get name".to_owned()));
    v.push((
        "Google Chrome".to_owned(),
        "tell application \"Google Chrome\" to get name".to_owned(),
    ));
    v.push((
        "System Events".to_owned(),
        "tell application \"System Events\" to get name".to_owned(),
    ));
    proof {
        assert(v@.map_values(|p: (String, String)| (p.0@, p.1@)) =~~= spec_automation_apps());
    }
    v
}

/// The names of the apps that need pre-warming, in table order.
pub fn get_automation_apps() -> (r: Vec<String>)
    ensures
        r@.map_values(|s: String| s@) == spec_automation_apps().map_values(
            |p: (Seq<char>, Seq<char>)| p.0,
        ),
{
    let mut v: Vec<String> = Vec::new();
    v.push("Calendar".to_owned());
    v.push("Contacts".to_owned());
    v.push("Finder".to_owned());
    v.push("Messages".to_owned());
    v.push("Music".to_owned());
    v.push("Notes".to_owned());
    v.push("Reminders".to_owned());
    v.push("Safari".to_owned());
    v.push("Google Chrome".to_owned());
    v.push("System Events".to_owned());
    proof {
        assert(v@.map_values(|s: String| s@) =~~= spec_automation_apps().map_values(
            |p: (Seq<char>, Seq<char>)| p.0,
        ));
    }
    v
}

/// Pairs each automation app with its probe's verdict, in table order.
pub fn get_automation_apps_with_status(granted: &Vec<bool>) -> (r: Vec<(String, bool)>)
    requires
        granted@.len() == spec_automation_apps().len(),
    ensures
        r@.len() == spec_automation_apps().len(),
        forall|i: int| 0 <= i < r@.len() ==> (#[trigger] r@[i]).0@ == spec_automation_apps()[i].0
            && r@[i].1 == granted@[i],
{
    let names = get_automation_apps();
    proof {
        assert(names@.map_values(|s: String| s@).len() == names@.len());
        assert(spec_automation_apps().map_values(|p: (Seq<char>, Seq<char>)| p.0).len()
            == spec_automation_apps().len());
    }
    let mut v: Vec<(String, bool)> = Vec::new();
    let mut i: usize = 0;
    while i < names.len()
        invariant
            names@.map_values(|s: String| s@) == spec_automation_apps().map_values(
                |p: (Seq<char>, Seq<char>)| p.0,
            ),
            names@.len() == spec_automation_apps().len(),
            granted@.len() == spec_automation_apps().len(),
            0 <= i <= names@.len(),
            v@.len() == i,
            forall|k: int| 0 <= k < i ==> (#[trigger] v@[k]).0@ == spec_automation_apps()[k].0
                && v@[k].1 == granted@[k],
        decreases names@.len() - i,
    {
        let name = names[i].clone();
        proof {
            assert(names@.map_values(|s: String| s@)[i as int] == spec_automation_apps()
                .map_values(|p: (Seq<char>, Seq<char>)| p.0)[i as int]);
        }
        v.push((name, granted[i]));
        i += 1;
    }
    v
}

/// The probe script of an automation app, or nothing for an app the table
/// does not know.
pub fn automation_script(app_name: &str) -> (r: Option<String>)
    ensures
        match r {
            Some(s) => exists|j: int|
                0 <= j < spec_automation_apps().len() && #[trigger] spec_automation_apps()[j] == (
                    app_name@,
                    s@,
                ),
            None => forall|j: int|
                0 <= j < spec_automation_apps().len() ==> (
                #[trigger] spec_automation_apps()[j]).0 != app_name@,
        },
{
    let table = automation_apps();
    let mut i: usize = 0;
    while i < table.len()
        invariant
            table@.map_values(|p: (String, String)| (p.0@, p.1@)) == spec_automation_apps(),
            table@.len() == spec_automation_apps().len(),
            0 <= i <= table@.len(),
            forall|j: int| 0 <= j < i ==> (#[trigger] spec_automation_apps()[j]).0 != app_name@,
        decreases table@.len() - i,
    {
        proof {
            assert(table@.map_values(|p: (String, String)| (p.0@, p.1@))[i as int]
                == spec_automation_apps()[i as int]);
        }
        if str_eq(app_name, table[i].0.as_str()) {
            let script = table[i].1.clone();
            proof {
                assert(spec_automation_apps()[i as int] == (app_name@, script@));
            }
            return Some(script);
        }
        i += 1;
    }
    None
}

/// The System Settings target that lets the user grant `permission`, or
/// nothing for an unknown permission name.
pub fn permission_settings_url(permission: &str) -> (r: Option<String>)
    ensures
        match r {
            Some(u) => exists|j: int|
                0 <= j < spec_settings_panes().len() && #[trigger] spec_settings_panes()[j] == (
                    permission@,
                    u@,
                ),
            None => forall|j: int|
                0 <= j < spec_settings_panes().len() ==> (#[trigger] spec_settings_panes()[j]).0
                    != permission@,
        },
{
    let mut table: Vec<(String, String)> = Vec::new();
    table.push((
        "full_disk".to_owned(),
        "x-apple.systempreferences:com.apple.preference.security?Privacy_AllFiles".to_owned(),
    ));
    table.push((
        "accessibility".to_owned(),
        "x-apple.systempreferences:com.apple.preference.security?Privacy_Accessibility".to_owned(),
    ));
    table.push((
        "screen_recording".to_owned(),
        "x-apple.systempreferences:com.apple.preference.security?Privacy_ScreenCapture".to_owned(),
    ));
    table.push((
        "contacts".to_owned(),
        "x-apple.systempreferences:com.apple.preference.security?Privacy_Contacts".to_owned(),
    ));
    table.push((
        "automation".to_owned(),
        "x-apple.systempreferences:com.apple.preference.security?Privacy_Automation".to_owned(),
    ));
    proof {
        assert(table@.map_values(|p: (String, String)| (p.0@, p.1@)) =~~= spec_settings_panes());
    }
    let mut i: usize = 0;
    while i < table.len()
        invariant
            table@.map_values(|p: (String, String)| (p.0@, p.1@)) == spec_settings_panes(),
            table@.len() == spec_settings_panes().len(),
            0 <= i <= table@.len(),
            forall|j: int| 0 <= j < i ==> (#[trigger] spec_settings_panes()[j]).0 != permission@,
        decreases table@.len() - i,
    {
        proof {
            assert(table@.map_values(|p: (String, String)| (p.0@, p.1@))[i as int]
                == spec_settings_panes()[i as int]);
        }
        if str_eq(permission, table[i].0.as_str()) {
            let url = table[i].1.clone();
            proof {
                assert(spec_settings_panes()[i as int] == (permission@, url@));
            }
            return Some(url);
        }
        i += 1;
    }
    None
}

} // verus!
