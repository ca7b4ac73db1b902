//! Installing the bootstrapper as a per-user service: where the server
//! script is, where the service files go and what they say.

use vstd::prelude::*;
use crate::paths::{home_dir, join_path, join_spec, path_exists};
use crate::process::{strings_view, text_option};
use crate::BootstrapError;

verus! {

/// The usual install locations of the 9Router server script for a user whose
/// home directory is `home`, in the order they are tried.
pub open spec fn server_script_candidates_spec(home: Seq<char>) -> Seq<Seq<char>> {
    let nine = join_spec(home, ".9router"@);
    seq![
        join_spec(nine, "cli.js"@),
        join_spec(join_spec(nine, "app"@), "custom-server.js"@),
        "/usr/local/lib/node_modules/9router/cli.js"@,
        "/usr/lib/node_modules/9router/cli.js"@,
        join_spec(
            join_spec(
                join_spec(join_spec(join_spec(home, ".npm-global"@), "lib"@), "node_modules"@),
                "9router"@,
            ),
            "cli.js"@,
        ),
    ]
}

/// The directory of per-user systemd units under `home`.
pub open spec fn systemd_unit_dir_spec(home: Seq<char>) -> Seq<char> {
    join_spec(join_spec(join_spec(home, ".config"@), "systemd"@), "user"@)
}

/// The bootstrapper's systemd unit file under `home`.
pub open spec fn systemd_unit_path_spec(home: Seq<char>) -> Seq<char> {
    join_spec(systemd_unit_dir_spec(home), "9router-bootstrap.service"@)
}

/// The directory of per-user launchd agents under `home`.
pub open spec fn launchd_agents_dir_spec(home: Seq<char>) -> Seq<char> {
    join_spec(join_spec(home, "Library"@), "LaunchAgents"@)
}

/// The bootstrapper's launchd property list under `home`.
pub open spec fn launchd_plist_path_spec(home: Seq<char>) -> Seq<char> {
    join_spec(launchd_agents_dir_spec(home), "com.9router.bootstrap.plist"@)
}

/// The systemd unit text up to the command line.
pub open spec fn unit_head() -> Seq<char> {
    "[Unit]\nDescription=9Router Bootstrap Service\nAfter=network-online.target\nWants=network-online.target\n\n[Service]\nType=simple\nExecStart="@
}

/// The systemd unit text after the command line.
pub open spec fn unit_tail() -> Seq<char> {
    "\nRestart=always\nRestartSec=10\nEnvironment=NODE_ENV=production\nEnvironment=NINEROUTER_BOOTSTRAP=1\n\n# Security hardening\nNoNewPrivileges=true\nProtectSystem=full\nProtectHome=read-only\nReadWritePaths=%h/.9router\nPrivateTmp=true\n\n[Install]\nWantedBy=default.target\n"@
}

/// The systemd unit that runs `binary start script`, restarting it always,
/// once the network is up.
pub open spec fn systemd_unit_spec(binary: Seq<char>, script: Seq<char>) -> Seq<char> {
    unit_head() + binary + " start "@ + script + unit_tail()
}

/// The launchd property list that runs `binary start script` at login and
/// keeps it alive, logging under `home`.
pub open spec fn launchd_plist_spec(binary: Seq<char>, script: Seq<char>, home: Seq<char>) -> Seq<char> {
    "<?xml version=\"1.0\" encoding=\"UTF-8\"?>\n<!DOCTYPE plist PUBLIC \"-//Apple//DTD PLIST 1.0//EN\" \"http://www.apple.com/DTDs/PropertyList-1.0.dtd\">\n<plist version=\"1.0\">\n<dict>\n    <key>Label</key>\n    <string>com.9router.bootstrap</string>\n    <key>ProgramArguments</key>\n    <array>\n        <string>"@
        + binary + "</string>\n        <string>start</string>\n        <string>"@ + script
        + "</string>\n    </array>\n    <key>RunAtLoad</key>\n    <true/>\n    <key>KeepAlive</key>\n    <true/>\n    <key>StandardOutPath</key>\n    <string>"@
        + home + "/Library/Logs/9router-bootstrap.log</string>\n    <key>StandardErrorPath</key>\n    <string>"@
        + home
        + "/Library/Logs/9router-bootstrap-error.log</string>\n    <key>EnvironmentVariables</key>\n    <dict>\n        <key>PATH</key>\n        <string>/usr/local/bin:/usr/bin:/bin:/usr/sbin:/sbin</string>\n        <key>NODE_ENV</key>\n        <string>production</string>\n    </dict>\n</dict>\n</plist>"@
}

/// `found` is what the first-existing rule picks from `candidates` given
/// the existence answers `exists` for the first of them: the candidate at the
/// least index answered yes, or none when no answer is yes.
pub open spec fn first_existing_is(
    candidates: Seq<Seq<char>>,
    exists: Seq<bool>,
    found: Option<Seq<char>>,
) -> bool {
    match found {
        Some(p) => exists|j: int|
            0 <= j < exists.len() && #[trigger] exists[j] && p == candidates[j] && forall|k: int|
                0 <= k < j ==> !#[trigger] exists[k],
        None => forall|k: int| 0 <= k < exists.len() ==> !#[trigger] exists[k],
    }
}

/// The first-existing rule picks one outcome only: for given candidates and
/// answers, two picks it allows are the same; and a pick is a candidate whose
/// answer is yes, no earlier one being yes.
pub proof fn first_existing_is_determined(
    candidates: Seq<Seq<char>>,
    exists: Seq<bool>,
    a: Option<Seq<char>>,
    b: Option<Seq<char>>,
)
    requires
        exists.len() <= candidates.len(),
        first_existing_is(candidates, exists, a),
        first_existing_is(candidates, exists, b),
    ensures
        a == b,
{
    match (a, b) {
        (Some(p), Some(q)) => {
            let i = choose|j: int|
                0 <= j < exists.len() && #[trigger] exists[j] && p == candidates[j] && forall|k: int|
                    0 <= k < j ==> !#[trigger] exists[k];
            let j = choose|j: int|
                0 <= j < exists.len() && #[trigger] exists[j] && q == candidates[j] && forall|k: int|
                    0 <= k < j ==> !#[trigger] exists[k];
            if i < j {
                assert(!exists[i]);
            } else if j < i {
                assert(!exists[j]);
            }
        },
        (Some(p), None) => {
            let i = choose|j: int|
                0 <= j < exists.len() && #[trigger] exists[j] && p == candidates[j] && forall|k: int|
                    0 <= k < j ==> !#[trigger] exists[k];
            assert(!exists[i]);
        },
        (None, Some(q)) => {
            let j = choose|j: int|
                0 <= j < exists.len() && #[trigger] exists[j] && q == candidates[j] && forall|k: int|
                    0 <= k < j ==> !#[trigger] exists[k];
            assert(!exists[j]);
        },
        (None, None) => {},
    }
}

/// The existence answers that a search of the install locations can gather:
/// asked in order, stopping at the first yes, and all of them when none is yes.
pub open spec fn script_search_outcome(exists: Seq<bool>) -> bool {
    &&& exists.len() <= 5
    &&& forall|k: int| 0 <= k < exists.len() - 1 ==> !#[trigger] exists[k]
    &&& (forall|k: int| 0 <= k < exists.len() ==> !#[trigger] exists[k]) ==> exists.len() == 5
}

/// Installs and removes the bootstrapper as a systemd user service (Linux)
/// or a launchd agent (macOS).
#[derive(Debug, Clone, Copy)]
pub struct ServiceManager;

impl ServiceManager {
    /// The usual install locations of the server script under `home`, in order.
    pub fn server_script_candidates(home: &str) -> (r: Vec<String>)
        ensures
            strings_view(r@) == server_script_candidates_spec(home@),
    {
        let nine = join_path(home, ".9router");
        let first = join_path(nine.as_str(), "cli.js");
        let app = join_path(nine.as_str(), "app");
        let second = join_path(app.as_str(), "custom-server.js");
        let third = String::from_str("/usr/local/lib/node_modules/9router/cli.js");
        let fourth = String::from_str("/usr/lib/node_modules/9router/cli.js");
        let npm = join_path(home, ".npm-global");
        let lib = join_path(npm.as_str(), "lib");
        let modules = join_path(lib.as_str(), "node_modules");
        let pkg = join_path(modules.as_str(), "9router");
        let fifth = join_path(pkg.as_str(), "cli.js");
        let r = vec![first, second, third, fourth, fifth];
        assert(strings_view(r@) =~= server_script_candidates_spec(home@));
        r
    }

    /// Finds the 9Router server script: the first of the usual install
    /// locations under the user's home directory that exists, asking about
    /// them in order and stopping at the first that does.
    pub fn find_server_script() -> (r: Result<String, BootstrapError>)
        ensures
            r matches Err(e) ==> (e == BootstrapError::HomeDirUnknown || e
                == BootstrapError::ServerScriptNotFound),
            r != Err::<String, BootstrapError>(BootstrapError::HomeDirUnknown) ==> exists|
                home: Seq<char>,
                exists: Seq<bool>,
            |
                home.len() > 0 && script_search_outcome(exists) && first_existing_is(
                    server_script_candidates_spec(home),
                    exists,
                    match r {
                        Ok(p) => Some(p@),
                        Err(_) => None,
                    },
                ),
    {
        let home = match home_dir() {
            Some(h) => h,
            None => {
                return Err(BootstrapError::HomeDirUnknown);
            },
        };
        Self::server_script_under(home.as_str())
    }

    /// Looks for the server script at the usual install locations under the
    /// home directory `home`, asking about them in order and stopping at the
    /// first that exists.
    pub fn server_script_under(home: &str) -> (r: Result<String, BootstrapError>)
        ensures
            r matches Err(e) ==> e == BootstrapError::ServerScriptNotFound,
            exists|exists: Seq<bool>|
                script_search_outcome(exists) && first_existing_is(
                    server_script_candidates_spec(home@),
                    exists,
                    match r {
                        Ok(p) => Some(p@),
                        Err(_) => None,
                    },
                ),
    {
        let candidates = Self::server_script_candidates(home);
        let n = candidates.len();
        assert(strings_view(candidates@).len() == n);
        let mut exists: Vec<bool> = Vec::new();
        let mut i: usize = 0;
        let mut hit = false;
        while i < n && !hit
            invariant
                n == candidates@.len(),
                n == 5,
                i <= n,
                exists@.len() == i,
                hit ==> i > 0 && exists@[i - 1],
                forall|k: int| 0 <= k < exists@.len() - (if hit { 1int } else { 0int }) ==> !#[trigger] exists@[k],
            decreases n - i,
        {
            let e = path_exists(candidates[i].as_str());
            exists.push(e);
            hit = e;
            i = i + 1;
        }
        let r = match Self::first_existing(&candidates, &exists) {
            Some(p) => Ok(p),
            None => Err(BootstrapError::ServerScriptNotFound),
        };
        proof {
            assert(script_search_outcome(exists@));
            assert(first_existing_is(
                server_script_candidates_spec(home@),
                exists@,
                match r {
                    Ok(p) => Some(p@),
                    Err(_) => None,
                },
            ));
        }
        r
    }

    /// The candidate at the least index whose existence answer is yes, if
    /// any; `exists` holds the answers for the first candidates, in order.
    pub fn first_existing(candidates: &Vec<String>, exists: &Vec<bool>) -> (r: Option<String>)
        requires
            exists@.len() <= candidates@.len(),
        ensures
            first_existing_is(strings_view(candidates@), exists@, text_option(r)),
    {
        let n = exists.len();
        let mut i: usize = 0;
        while i < n
            invariant
                n == exists@.len(),
                n <= candidates@.len(),
                i <= n,
                forall|k: int| 0 <= k < i ==> !#[trigger] exists@[k],
            decreases n - i,
        {
            if exists[i] {
                let p = candidates[i].clone();
                assert(strings_view(candidates@)[i as int] == p@);
                return Some(p);
            }
            i = i + 1;
        }
        None
    }

    /// The directory of per-user systemd units under `home`.
    pub fn systemd_unit_dir(home: &str) -> (r: String)
        ensures
            r@ == systemd_unit_dir_spec(home@),
    {
        let config = join_path(home, ".config");
        let systemd = join_path(config.as_str(), "systemd");
        join_path(systemd.as_str(), "user")
    }

    /// The bootstrapper's systemd unit file under `home`.
    pub fn systemd_unit_path(home: &str) -> (r: String)
        ensures
            r@ == systemd_unit_path_spec(home@),
    {
        let dir = Self::systemd_unit_dir(home);
        join_path(dir.as_str(), "9router-bootstrap.service")
    }

    /// The directory of per-user launchd agents under `home`.
    pub fn launchd_agents_dir(home: &str) -> (r: String)
        ensures
            r@ == launchd_agents_dir_spec(home@),
    {
        let library = join_path(home, "Library");
        join_path(library.as_str(), "LaunchAgents")
    }

    /// The bootstrapper's launchd property list under `home`.
    pub fn launchd_plist_path(home: &str) -> (r: String)
        ensures
            r@ == launchd_plist_path_spec(home@),
    {
        let dir = Self::launchd_agents_dir(home);
        join_path(dir.as_str(), "com.9router.bootstrap.plist")
    }

    /// The systemd unit that runs `binary start script`.
    pub fn systemd_unit(binary: &str, script: &str) -> (r: String)
        ensures
            r@ == systemd_unit_spec(binary@, script@),
    {
        let mut r = String::from_str(
            "[Unit]\nDescription=9Router Bootstrap Service\nAfter=network-online.target\nWants=network-online.target\n\n[Service]\nType=simple\nExecStart=",
        );
        r.append(binary);
        r.append(" start ");
        r.append(script);
        r.append(
            "\nRestart=always\nRestartSec=10\nEnvironment=NODE_ENV=production\nEnvironment=NINEROUTER_BOOTSTRAP=1\n\n# Security hardening\nNoNewPrivileges=true\nProtectSystem=full\nProtectHome=read-only\nReadWritePaths=%h/.9router\nPrivateTmp=true\n\n[Install]\nWantedBy=default.target\n",
        );
        r
    }

    /// The launchd property list that runs `binary start script`, logging under `home`.
    pub fn launchd_plist(binary: &str, script: &str, home: &str) -> (r: String)
        ensures
            r@ == launchd_plist_spec(binary@, script@, home@),
    {
        let mut r = String::from_str(
            "<?xml version=\"1.0\" encoding=\"UTF-8\"?>\n<!DOCTYPE plist PUBLIC \"-//Apple//DTD PLIST 1.0//EN\" \"http://www.apple.com/DTDs/PropertyList-1.0.dtd\">\n<plist version=\"1.0\">\n<dict>\n    <key>Label</key>\n    <string>com.9router.bootstrap</string>\n    <key>ProgramArguments</key>\n    <array>\n        <string>",
        );
        r.append(binary);
        r.append("</string>\n        <string>start</string>\n        <string>");
        r.append(script);
        r.append(
            "</string>\n    </array>\n    <key>RunAtLoad</key>\n    <true/>\n    <key>KeepAlive</key>\n    <true/>\n    <key>StandardOutPath</key>\n    <string>",
        );
        r.append(home);
        r.append("/Library/Logs/9router-bootstrap.log</string>\n    <key>StandardErrorPath</key>\n    <string>");
        r.append(home);
        r.append(
            "/Library/Logs/9router-bootstrap-error.log</string>\n    <key>EnvironmentVariables</key>\n    <dict>\n        <key>PATH</key>\n        <string>/usr/local/bin:/usr/bin:/bin:/usr/sbin:/sbin</string>\n        <key>NODE_ENV</key>\n        <string>production</string>\n    </dict>\n</dict>\n</plist>",
        );
        r
    }
}

} // verus!
