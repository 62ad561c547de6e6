//! How the application is opened on a project.

use crate::chars::{replace_all, replaced, trim_start_char, without_leading};
use crate::text::{is_prefix, starts_with};
use vstd::prelude::*;
use vstd::string::StringExecFns;

verus! {

/// The kind of system the plugin runs on.
#[derive(Debug, Copy, Clone, PartialEq, Eq, Structural)]
pub enum Platform {
    MacOs,
    Windows,
    Other,
}

/// What is to be done to open the application.
#[derive(Debug, Clone, PartialEq, Eq)]
pub enum LaunchPlan {
    /// Nothing.
    Nothing,
    /// The program is to be run with the arguments.
    Run { program: String, args: Vec<String> },
    /// The user is to be told why the application cannot be opened.
    Explain(String),
}

/// What a plan says, with its texts as sequences of characters.
pub enum LaunchModel {
    Nothing,
    Run { program: Seq<char>, args: Seq<Seq<char>> },
    Explain(Seq<char>),
}

/// The texts of a list of strings.
pub open spec fn texts_of(list: Seq<String>) -> Seq<Seq<char>> {
    Seq::new(list.len(), |i: int| list[i]@)
}

impl View for LaunchPlan {
    type V = LaunchModel;

    open spec fn view(&self) -> LaunchModel {
        match self {
            LaunchPlan::Nothing => LaunchModel::Nothing,
            LaunchPlan::Run { program, args } => LaunchModel::Run {
                program: program@,
                args: texts_of(args@),
            },
            LaunchPlan::Explain(text) => LaunchModel::Explain(text@),
        }
    }
}

/// Where the application is found: where the settings say, if they say;
/// else in the applications folder of a Mac, if it is there.
pub open spec fn location_model(
    setting: Option<Seq<char>>,
    platform: Platform,
    bundle_exists: bool,
) -> Option<Seq<char>> {
    match setting {
        Some(path) if path.len() > 0 => Some(path),
        _ => if platform == Platform::MacOs && bundle_exists {
            Some("/Applications/Gyroflow.app"@)
        } else {
            None
        },
    }
}

/// Where the application is found.
pub fn gyroflow_location(setting: Option<&str>, platform: Platform, bundle_exists: bool) -> (location:
    Option<String>)
    ensures
        location is Some <==> location_model(
            match setting {
                Some(s) => Some(s@),
                None => None,
            },
            platform,
            bundle_exists,
        ) is Some,
        location is Some ==> location->0@ == location_model(
            match setting {
                Some(s) => Some(s@),
                None => None,
            },
            platform,
            bundle_exists,
        )->0,
{
    match setting {
        Some(path) => {
            if !path.is_empty() {
                return Some(String::from_str(path));
            }
        },
        None => {},
    }
    if matches!(platform, Platform::MacOs) && bundle_exists {
        Some(String::from_str("/Applications/Gyroflow.app"))
    } else {
        None
    }
}

/// The path `project` as the scripting of a Mac wants it: with colons for
/// slashes, and without a colon at its start.
pub open spec fn script_path(project: Seq<char>) -> Seq<char> {
    without_leading(replaced(project, "/"@, ":"@), ':')
}

/// The script that opens `project` in the application.
pub open spec fn open_script(project: Seq<char>) -> Seq<char> {
    "tell application \"Gyroflow\" to open file \""@ + script_path(project) + "\""@
}

/// What is to be done to open the application, on `project` if one is
/// given and not empty.
///
/// On a Mac the application is told by script to open the project, or to
/// come to the front without one. Elsewhere the application is run from
/// where it is found, with `--open` and the project; a location that starts
/// with `shell:` on Windows is started through the shell. Without a
/// project to speak of, not even an empty one, nothing is run; and when the
/// application is not found, the user is told.
pub open spec fn launch_model(
    platform: Platform,
    location: Option<Seq<char>>,
    project: Option<Seq<char>>,
) -> LaunchModel {
    if platform == Platform::MacOs {
        LaunchModel::Run {
            program: "osascript"@,
            args: match project {
                Some(p) => if p.len() > 0 {
                    seq!["-e"@, open_script(p)]
                } else {
                    seq!["-e"@, "tell application \"Gyroflow\" to activate"@]
                },
                None => Seq::<Seq<char>>::empty(),
            },
        }
    } else {
        match location {
            None => LaunchModel::Explain(
                "Unable to find Gyroflow app path. Make sure to run Gyroflow app at least once and that version is at least v1.6.0"@,
            ),
            Some(v) => match project {
                Some(p) if v.len() > 0 => {
                    let through_shell = platform == Platform::Windows && is_prefix(v, "shell:"@);
                    let tail = if p.len() > 0 {
                        seq!["--open"@, p]
                    } else {
                        Seq::<Seq<char>>::empty()
                    };
                    if through_shell {
                        LaunchModel::Run {
                            program: "cmd.exe"@,
                            args: seq!["/c"@, "start"@, ""@, v] + tail,
                        }
                    } else {
                        LaunchModel::Run { program: v, args: tail }
                    }
                },
                _ => LaunchModel::Nothing,
            },
        }
    }
}

/// What is to be done to open the application.
pub fn launch_plan(platform: Platform, location: Option<&str>, project: Option<&str>) -> (plan:
    LaunchPlan)
    ensures
        plan@ == launch_model(
            platform,
            match location {
                Some(s) => Some(s@),
                None => None,
            },
            match project {
                Some(s) => Some(s@),
                None => None,
            },
        ),
{
    if matches!(platform, Platform::MacOs) {
        let mut args: Vec<String> = Vec::new();
        match project {
            Some(p) => {
                args.push(String::from_str("-e"));
                if !p.is_empty() {
                    let colons = replace_all(p, "/", ":");
                    let path = trim_start_char(colons.as_str(), ':');
                    let script = String::from_str("tell application \"Gyroflow\" to open file \"").concat(
                        path.as_str(),
                    ).concat("\"");
                    args.push(script);
                    assert(texts_of(args@) =~= seq!["-e"@, open_script(p@)]);
                } else {
                    args.push(String::from_str("tell application \"Gyroflow\" to activate"));
                    assert(texts_of(args@) =~= seq![
                        "-e"@,
                        "tell application \"Gyroflow\" to activate"@,
                    ]);
                }
            },
            None => {
                assert(texts_of(args@) =~= Seq::<Seq<char>>::empty());
            },
        }
        return LaunchPlan::Run { program: String::from_str("osascript"), args };
    }
    match location {
        None => LaunchPlan::Explain(
            String::from_str(
                "Unable to find Gyroflow app path. Make sure to run Gyroflow app at least once and that version is at least v1.6.0",
            ),
        ),
        Some(v) => {
            match project {
                Some(p) => {
                    if v.is_empty() {
                        return LaunchPlan::Nothing;
                    }
                    let through_shell = matches!(platform, Platform::Windows) && starts_with(
                        v,
                        "shell:",
                    );
                    let mut args: Vec<String> = Vec::new();
                    if through_shell {
                        args.push(String::from_str("/c"));
                        args.push(String::from_str("start"));
                        args.push(String::from_str(""));
                        args.push(String::from_str(v));
                    }
                    if !p.is_empty() {
                        args.push(String::from_str("--open"));
                        args.push(String::from_str(p));
                    }
                    let ghost tail = if p@.len() > 0 {
                        seq!["--open"@, p@]
                    } else {
                        Seq::<Seq<char>>::empty()
                    };
                    if through_shell {
                        assert(texts_of(args@) =~= seq!["/c"@, "start"@, ""@, v@] + tail);
                        LaunchPlan::Run { program: String::from_str("cmd.exe"), args }
                    } else {
                        assert(texts_of(args@) =~= tail);
                        LaunchPlan::Run { program: String::from_str(v), args }
                    }
                },
                None => LaunchPlan::Nothing,
            }
        },
    }
}

} // verus!
