//! Resolution of the SDC configuration file location and loading of its
//! variables.
//!
//! The configuration file can come from the USB key copy path, the USB
//! mountpoint, the default install path, or (on an unsetup compute node) a
//! fallback path.  Which one wins depends on service properties and on
//! which paths exist; those answers are taken as plain values, and the
//! whole decision is made here.

use vstd::prelude::*;

use crate::errors::SdcConfigError;
use crate::strmap::StrMap;
use crate::utils::{parse_config_file, regex_valid, spec_parse_lines};
use vstd::string::StrSliceExecFns;
use vstd::string::StringExecFns;

verus! {

/// Default configuration file on a node that was set up.
pub const DEFAULT_CONFIG_PATH: &'static str = "/opt/smartdc/config/node.config";

/// Fallback configuration file on an unsetup compute node.
pub const CN_CONFIG_PATH: &'static str = "/var/tmp/node.config/node.config";

/// Per-line filter applied to configuration files: variables start with a
/// letter.
pub const CONFIG_LINE_FILTER: &'static str = "^[a-zA-Z].*$";

/// The key under which the include directory is recorded in the loaded
/// configuration.
pub const CONFIG_INC_DIR_KEY: &'static str = "config_inc_dir";

/// The filesystem's answer for each path the resolution consults, taken as
/// stable for the duration of one resolution.
#[derive(Debug, Clone, Copy, PartialEq, Eq, Structural)]
pub struct PathProbe {
    /// Whether `<usb copy path>/config` exists.
    pub usb_copy_config_exists: bool,
    /// Whether `/mnt/<usb mountpoint>/config` exists.
    pub mnt_config_exists: bool,
    /// Whether [`DEFAULT_CONFIG_PATH`] exists.
    pub default_exists: bool,
    /// Whether [`CN_CONFIG_PATH`] exists.
    pub cn_exists: bool,
}

/// Locations of the configuration file and of the directory configuration
/// includes are resolved against.
#[derive(Debug, PartialEq)]
pub struct SdcConfigPaths {
    /// The configuration file to load.
    pub config_file: String,
    /// The include directory; empty when no configuration file was found.
    pub config_inc_dir: String,
}

/// The candidate configuration file: under the USB copy path when that copy
/// holds one, else under the USB mountpoint.
pub open spec fn spec_sdc_config_path(copy: Seq<char>, mnt: Seq<char>, copy_exists: bool) -> Seq<
    char,
> {
    if copy_exists {
        copy + "/config"@
    } else {
        "/mnt/"@ + mnt + "/config"@
    }
}

/// Whether the candidate configuration file exists.
pub open spec fn spec_sdc_exists(probe: PathProbe) -> bool {
    if probe.usb_copy_config_exists {
        true
    } else {
        probe.mnt_config_exists
    }
}

/// The index of the last '/' in a path, if the path has one.
pub open spec fn spec_rfind_slash(s: Seq<char>) -> Option<int>
    decreases s.len(),
{
    if s.len() == 0 {
        None
    } else if s.last() == '/' {
        Some(s.len() - 1)
    } else {
        spec_rfind_slash(s.drop_last())
    }
}

/// The directory part of a path as the resolution uses it: the text before
/// the last '/' ("/" itself when that slash leads), the empty string for a
/// bare name, and "." for an empty path.
pub open spec fn spec_parent_or_dot(s: Seq<char>) -> Seq<char> {
    match spec_rfind_slash(s) {
        Some(i) => if i == 0 {
            "/"@
        } else {
            s.take(i)
        },
        None => if s.len() == 0 {
            "."@
        } else {
            Seq::empty()
        },
    }
}

/// The configuration file the resolution settles on.
pub open spec fn spec_config_file(copy: Seq<char>, mnt: Seq<char>, probe: PathProbe) -> Seq<char> {
    let sdc = spec_sdc_config_path(copy, mnt, probe.usb_copy_config_exists);
    if spec_sdc_exists(probe) {
        sdc
    } else if !probe.default_exists && probe.cn_exists {
        CN_CONFIG_PATH@
    } else {
        sdc
    }
}

/// The include directory the resolution settles on.
pub open spec fn spec_config_inc_dir(copy: Seq<char>, mnt: Seq<char>, probe: PathProbe) -> Seq<
    char,
> {
    let sdc = spec_sdc_config_path(copy, mnt, probe.usb_copy_config_exists);
    if spec_sdc_exists(probe) {
        spec_parent_or_dot(sdc) + "/config.inc"@
    } else if !probe.default_exists && probe.cn_exists {
        spec_parent_or_dot(CN_CONFIG_PATH@)
    } else {
        Seq::empty()
    }
}

/// The last '/' of a path is exactly the greatest index holding '/'.
proof fn lemma_rfind_slash_characterization(s: Seq<char>)
    ensures
        match spec_rfind_slash(s) {
            Some(i) => 0 <= i < s.len() && s[i] == '/' && (forall|j: int| i < j < s.len() ==> s[j]
                != '/'),
            None => forall|j: int| 0 <= j < s.len() ==> s[j] != '/',
        },
    decreases s.len(),
{
    if s.len() > 0 && s.last() != '/' {
        lemma_rfind_slash_characterization(s.drop_last());
        assert(forall|j: int| 0 <= j < s.len() - 1 ==> s[j] == s.drop_last()[j]);
    }
}

/// Find the last '/' of a path.
fn rfind_slash(s: &str) -> (r: Option<usize>)
    ensures
        r is Some <==> spec_rfind_slash(s@) is Some,
        r matches Some(i) ==> i < s@.len() && s@[i as int] == '/' && spec_rfind_slash(s@) == Some(
            i as int,
        ),
{
    let n = s.unicode_len();
    let mut i: usize = n;
    while i > 0
        invariant
            i <= n,
            n == s@.len(),
            forall|j: int| i <= j < n ==> s@[j] != '/',
        decreases i,
    {
        i = i - 1;
        let c = s.get_char(i);
        if c == '/' {
            proof {
                lemma_rfind_slash_characterization(s@);
            }
            return Some(i);
        }
    }
    proof {
        lemma_rfind_slash_characterization(s@);
    }
    None
}

/// The directory part of a path, as [`spec_parent_or_dot`] describes it.
pub fn parent_or_dot(s: &str) -> (r: String)
    ensures
        r@ == spec_parent_or_dot(s@),
{
    match rfind_slash(s) {
        Some(i) => {
            if i == 0 {
                String::from_str("/")
            } else {
                let dir = String::from_str(s.substring_char(0, i));
                proof {
                    assert(dir@ =~= s@.take(i as int));
                }
                dir
            }
        },
        None => {
            if s.unicode_len() == 0 {
                String::from_str(".")
            } else {
                String::new()
            }
        },
    }
}

/// Resolve the location of the configuration file from the two service
/// properties and the probed filesystem answers.
pub fn get_sdc_config_filename(
    usb_copy_path: &String,
    usb_mountpoint: &String,
    probe: &PathProbe,
) -> (r: SdcConfigPaths)
    ensures
        r.config_file@ == spec_config_file(usb_copy_path@, usb_mountpoint@, *probe),
        r.config_inc_dir@ == spec_config_inc_dir(usb_copy_path@, usb_mountpoint@, *probe),
{
    let sdc_config: String = if probe.usb_copy_config_exists {
        usb_copy_path.clone().concat("/config")
    } else {
        String::from_str("/mnt/").concat(usb_mountpoint.as_str()).concat("/config")
    };
    let sdc_exists = if probe.usb_copy_config_exists {
        true
    } else {
        probe.mnt_config_exists
    };
    if sdc_exists {
        let dir = parent_or_dot(sdc_config.as_str());
        let inc = dir.concat("/config.inc");
        SdcConfigPaths { config_file: sdc_config, config_inc_dir: inc }
    } else if !probe.default_exists && probe.cn_exists {
        SdcConfigPaths {
            config_file: String::from_str(CN_CONFIG_PATH),
            config_inc_dir: parent_or_dot(CN_CONFIG_PATH),
        }
    } else {
        SdcConfigPaths { config_file: sdc_config, config_inc_dir: String::new() }
    }
}

/// Mapping of SDC configuration variables to values.
#[derive(Debug, PartialEq)]
pub struct SdcConfig(StrMap);

impl View for SdcConfig {
    type V = Map<Seq<char>, Seq<char>>;

    closed spec fn view(&self) -> Map<Seq<char>, Seq<char>> {
        self.0@
    }
}

impl SdcConfig {
    /// Look up a configuration variable.
    pub fn get(&self, key: &String) -> (r: Option<&String>)
        ensures
            match r {
                Some(v) => self@.contains_key(key@) && v@ == self@[key@],
                None => !self@.contains_key(key@),
            },
    {
        self.0.get(key)
    }
}

/// The mapping loaded from a configuration file's lines: the parsed,
/// filtered variables, with the include directory recorded under
/// [`CONFIG_INC_DIR_KEY`].
pub open spec fn spec_config_map(lines: Seq<Seq<char>>, config_inc_dir: Seq<char>) -> Map<
    Seq<char>,
    Seq<char>,
> {
    spec_parse_lines(
        Map::empty(),
        lines,
        Some(CONFIG_LINE_FILTER@),
    ).insert(CONFIG_INC_DIR_KEY@, config_inc_dir)
}

/// Build the configuration mapping from the file's lines.  `None` stands
/// for a file that could not be opened, which is fatal on a headnode and an
/// ordinary error otherwise.
pub fn sdc_config_to_map(
    paths: &SdcConfigPaths,
    file_lines: Option<&Vec<String>>,
    headnode: bool,
) -> (r: Result<SdcConfig, SdcConfigError>)
    ensures
        (file_lines is None && headnode) ==> (r matches Err(e) && e
            == SdcConfigError::HeadnodeConfigMissing),
        (file_lines is None && !headnode) ==> (r matches Err(e) && e == SdcConfigError::IOError),
        (file_lines is Some && !regex_valid(CONFIG_LINE_FILTER@)) ==> (r matches Err(e) && e
            == SdcConfigError::BadFilter),
        file_lines matches Some(lines) ==> (regex_valid(CONFIG_LINE_FILTER@) ==> (r matches Ok(c)
            && c@ == spec_config_map(lines@.map_values(|l: String| l@), paths.config_inc_dir@))),
{
    match file_lines {
        None => {
            if headnode {
                Err(SdcConfigError::HeadnodeConfigMissing)
            } else {
                Err(SdcConfigError::IOError)
            }
        },
        Some(lines) => {
            let mut map = StrMap::new();
            match parse_config_file(lines, Some(CONFIG_LINE_FILTER), &mut map) {
                Err(e) => Err(e),
                Ok(()) => {
                    map.insert(
                        String::from_str(CONFIG_INC_DIR_KEY),
                        paths.config_inc_dir.clone(),
                    );
                    Ok(SdcConfig(map))
                },
            }
        },
    }
}

/// Load SDC configuration variables: resolve the configuration file
/// location, then build the mapping from that file's lines.
pub fn load_sdc_config(
    headnode: bool,
    usb_copy_path: &String,
    usb_mountpoint: &String,
    probe: &PathProbe,
    file_lines: Option<&Vec<String>>,
) -> (r: Result<SdcConfig, SdcConfigError>)
    ensures
        (file_lines is None && headnode) ==> (r matches Err(e) && e
            == SdcConfigError::HeadnodeConfigMissing),
        (file_lines is None && !headnode) ==> (r matches Err(e) && e == SdcConfigError::IOError),
        (file_lines is Some && !regex_valid(CONFIG_LINE_FILTER@)) ==> (r matches Err(e) && e
            == SdcConfigError::BadFilter),
        file_lines matches Some(lines) ==> (regex_valid(CONFIG_LINE_FILTER@) ==> (r matches Ok(c)
            && c@ == spec_config_map(
            lines@.map_values(|l: String| l@),
            spec_config_inc_dir(usb_copy_path@, usb_mountpoint@, *probe),
        ))),
{
    let paths = get_sdc_config_filename(usb_copy_path, usb_mountpoint, probe);
    sdc_config_to_map(&paths, file_lines, headnode)
}

} // verus!
