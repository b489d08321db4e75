//! The manifest that the operating system reads to know a bundle.

use vstd::prelude::*;
use crate::descriptor::{BundleDescriptor, DescriptorView};
use crate::path::FilePath;
use crate::step::{Step, StepView};
use crate::text::owned;

verus! {

/// The entries of a bundle's `Info.plist`. Each field holds the value of the
/// key of the same name.
#[derive(Debug, Clone, PartialEq, Eq)]
pub struct InfoPlist {
    pub cf_bundle_development_region: String,
    pub cf_bundle_display_name: String,
    pub cf_bundle_executable: String,
    pub cf_bundle_identifier: String,
    pub cf_bundle_info_dictionary_version: String,
    pub cf_bundle_name: String,
    pub cf_bundle_package_type: String,
    pub cf_bundle_signature: String,
    pub cf_bundle_version: String,
    pub cf_bundle_short_version_string: String,
    /// Environment variables for the process, as pairs of a name and a value.
    pub ls_environment: Vec<(String, String)>,
    pub ls_file_quarantine_enabled: bool,
    pub ls_minimum_system_version: String,
    /// Present, and `1`, for a process without a presence in the dock.
    pub ls_ui_element: Option<String>,
    pub ns_bluetooth_always_usage_description: String,
    pub ns_supports_automatic_graphics_switching: bool,
    pub ns_web_browser_publickey_credential_usage_description: String,
    pub ns_camera_usage_description: String,
    pub ns_microphone_usage_description: String,
}

/// The mathematical value of an [`InfoPlist`].
pub struct InfoPlistView {
    pub cf_bundle_development_region: Seq<char>,
    pub cf_bundle_display_name: Seq<char>,
    pub cf_bundle_executable: Seq<char>,
    pub cf_bundle_identifier: Seq<char>,
    pub cf_bundle_info_dictionary_version: Seq<char>,
    pub cf_bundle_name: Seq<char>,
    pub cf_bundle_package_type: Seq<char>,
    pub cf_bundle_signature: Seq<char>,
    pub cf_bundle_version: Seq<char>,
    pub cf_bundle_short_version_string: Seq<char>,
    pub ls_environment: Seq<(Seq<char>, Seq<char>)>,
    pub ls_file_quarantine_enabled: bool,
    pub ls_minimum_system_version: Seq<char>,
    pub ls_ui_element: Option<Seq<char>>,
    pub ns_bluetooth_always_usage_description: Seq<char>,
    pub ns_supports_automatic_graphics_switching: bool,
    pub ns_web_browser_publickey_credential_usage_description: Seq<char>,
    pub ns_camera_usage_description: Seq<char>,
    pub ns_microphone_usage_description: Seq<char>,
}

impl View for InfoPlist {
    type V = InfoPlistView;

    open spec fn view(&self) -> InfoPlistView {
        InfoPlistView {
            cf_bundle_development_region: self.cf_bundle_development_region@,
            cf_bundle_display_name: self.cf_bundle_display_name@,
            cf_bundle_executable: self.cf_bundle_executable@,
            cf_bundle_identifier: self.cf_bundle_identifier@,
            cf_bundle_info_dictionary_version: self.cf_bundle_info_dictionary_version@,
            cf_bundle_name: self.cf_bundle_name@,
            cf_bundle_package_type: self.cf_bundle_package_type@,
            cf_bundle_signature: self.cf_bundle_signature@,
            cf_bundle_version: self.cf_bundle_version@,
            cf_bundle_short_version_string: self.cf_bundle_short_version_string@,
            ls_environment: Seq::new(
                self.ls_environment.len() as nat,
                |i: int| (self.ls_environment[i].0@, self.ls_environment[i].1@),
            ),
            ls_file_quarantine_enabled: self.ls_file_quarantine_enabled,
            ls_minimum_system_version: self.ls_minimum_system_version@,
            ls_ui_element: match self.ls_ui_element {
                Some(s) => Some(s@),
                None => None,
            },
            ns_bluetooth_always_usage_description: self.ns_bluetooth_always_usage_description@,
            ns_supports_automatic_graphics_switching: self.ns_supports_automatic_graphics_switching,
            ns_web_browser_publickey_credential_usage_description:
                self.ns_web_browser_publickey_credential_usage_description@,
            ns_camera_usage_description: self.ns_camera_usage_description@,
            ns_microphone_usage_description: self.ns_microphone_usage_description@,
        }
    }
}

/// The manifest of the bundle that `descriptor` describes. Identifier, display
/// name and executable are the descriptor's; the bundle's name and the
/// reason given for each permission are the display name; a helper, and no
/// other bundle, is marked as having no presence in the dock; the rest is the
/// same for every bundle.
pub open spec fn manifest_spec(descriptor: DescriptorView) -> InfoPlistView {
    InfoPlistView {
        cf_bundle_development_region: "en"@,
        cf_bundle_display_name: descriptor.display_name,
        cf_bundle_executable: descriptor.executable,
        cf_bundle_identifier: descriptor.identifier,
        cf_bundle_info_dictionary_version: "6.0"@,
        cf_bundle_name: descriptor.display_name,
        cf_bundle_package_type: "APPL"@,
        cf_bundle_signature: "????"@,
        cf_bundle_version: "0.0.0"@,
        cf_bundle_short_version_string: "0.0"@,
        ls_environment: seq![("MallocNanoZone"@, "0"@)],
        ls_file_quarantine_enabled: true,
        ls_minimum_system_version: "11.0"@,
        ls_ui_element: if descriptor.role.is_helper_spec() {
            Some("1"@)
        } else {
            None
        },
        ns_bluetooth_always_usage_description: descriptor.display_name,
        ns_supports_automatic_graphics_switching: true,
        ns_web_browser_publickey_credential_usage_description: descriptor.display_name,
        ns_camera_usage_description: descriptor.display_name,
        ns_microphone_usage_description: descriptor.display_name,
    }
}

/// The value of one key of a property list.
#[derive(Debug, Clone, PartialEq, Eq)]
pub enum PlistValue {
    Text(String),
    Flag(bool),
    /// A dictionary of strings, as pairs of a key and a value.
    Table(Vec<(String, String)>),
}

/// The mathematical value of a [`PlistValue`].
pub enum PlistValueView {
    Text(Seq<char>),
    Flag(bool),
    Table(Seq<(Seq<char>, Seq<char>)>),
}

impl View for PlistValue {
    type V = PlistValueView;

    open spec fn view(&self) -> PlistValueView {
        match self {
            PlistValue::Text(text) => PlistValueView::Text(text@),
            PlistValue::Flag(flag) => PlistValueView::Flag(*flag),
            PlistValue::Table(pairs) => PlistValueView::Table(
                Seq::new(pairs.len() as nat, |i: int| (pairs[i].0@, pairs[i].1@)),
            ),
        }
    }
}

/// The mathematical values of the entries of a property list, in order.
pub open spec fn entry_views(entries: Seq<(String, PlistValue)>) -> Seq<(Seq<char>, PlistValueView)> {
    Seq::new(entries.len(), |i: int| (entries[i].0@, entries[i].1@))
}

impl InfoPlistView {
    /// The manifest as the property list that is written: each key with its
    /// value, in the order of the document. The key that marks a process
    /// without a presence in the dock is left out where the manifest has no
    /// value for it.
    pub open spec fn entries(self) -> Seq<(Seq<char>, PlistValueView)> {
        seq![
            ("CFBundleDevelopmentRegion"@, PlistValueView::Text(self.cf_bundle_development_region)),
            ("CFBundleDisplayName"@, PlistValueView::Text(self.cf_bundle_display_name)),
            ("CFBundleExecutable"@, PlistValueView::Text(self.cf_bundle_executable)),
            ("CFBundleIdentifier"@, PlistValueView::Text(self.cf_bundle_identifier)),
            (
                "CFBundleInfoDictionaryVersion"@,
                PlistValueView::Text(self.cf_bundle_info_dictionary_version),
            ),
            ("CFBundleName"@, PlistValueView::Text(self.cf_bundle_name)),
            ("CFBundlePackageType"@, PlistValueView::Text(self.cf_bundle_package_type)),
            ("CFBundleSignature"@, PlistValueView::Text(self.cf_bundle_signature)),
            ("CFBundleVersion"@, PlistValueView::Text(self.cf_bundle_version)),
            (
                "CFBundleShortVersionString"@,
                PlistValueView::Text(self.cf_bundle_short_version_string),
            ),
            ("LSEnvironment"@, PlistValueView::Table(self.ls_environment)),
            ("LSFileQuarantineEnabled"@, PlistValueView::Flag(self.ls_file_quarantine_enabled)),
            ("LSMinimumSystemVersion"@, PlistValueView::Text(self.ls_minimum_system_version)),
        ] + match self.ls_ui_element {
            Some(value) => seq![("LSUIElement"@, PlistValueView::Text(value))],
            None => Seq::empty(),
        } + seq![
            (
                "NSBluetoothAlwaysUsageDescription"@,
                PlistValueView::Text(self.ns_bluetooth_always_usage_description),
            ),
            (
                "NSSupportsAutomaticGraphicsSwitching"@,
                PlistValueView::Flag(self.ns_supports_automatic_graphics_switching),
            ),
            (
                "NSWebBrowserPublicKeyCredentialUsageDescription"@,
                PlistValueView::Text(self.ns_web_browser_publickey_credential_usage_description),
            ),
            ("NSCameraUsageDescription"@, PlistValueView::Text(self.ns_camera_usage_description)),
            (
                "NSMicrophoneUsageDescription"@,
                PlistValueView::Text(self.ns_microphone_usage_description),
            ),
        ]
    }
}

/// The file name of a bundle's manifest, inside the bundle's `Contents`.
pub open spec fn manifest_file_name() -> Seq<char> {
    "Info.plist"@
}

impl InfoPlist {
    /// The manifest of the bundle that `descriptor` describes.
    pub fn for_bundle(descriptor: &BundleDescriptor) -> (r: InfoPlist)
        ensures
            r@ == manifest_spec(descriptor@),
    {
        let name = descriptor.display_name.as_str();
        let mut environment: Vec<(String, String)> = Vec::new();
        environment.push((owned("MallocNanoZone"), owned("0")));
        let r = InfoPlist {
            cf_bundle_development_region: owned("en"),
            cf_bundle_display_name: owned(name),
            cf_bundle_executable: descriptor.executable.clone(),
            cf_bundle_identifier: descriptor.identifier.clone(),
            cf_bundle_info_dictionary_version: owned("6.0"),
            cf_bundle_name: owned(name),
            cf_bundle_package_type: owned("APPL"),
            cf_bundle_signature: owned("????"),
            cf_bundle_version: owned("0.0.0"),
            cf_bundle_short_version_string: owned("0.0"),
            ls_environment: environment,
            ls_file_quarantine_enabled: true,
            ls_minimum_system_version: owned("11.0"),
            ls_ui_element: if descriptor.role.is_helper() {
                Some(owned("1"))
            } else {
                None
            },
            ns_bluetooth_always_usage_description: owned(name),
            ns_supports_automatic_graphics_switching: true,
            ns_web_browser_publickey_credential_usage_description: owned(name),
            ns_camera_usage_description: owned(name),
            ns_microphone_usage_description: owned(name),
        };
        assert(r@.ls_environment =~= seq![("MallocNanoZone"@, "0"@)]);
        r
    }
}

/// Adds to `entries` the key `key` with the text `value`.
fn push_text(entries: &mut Vec<(String, PlistValue)>, key: &str, value: &String)
    ensures
        entry_views(final(entries)@) == entry_views(old(entries)@).push(
            (key@, PlistValueView::Text(value@)),
        ),
{
    entries.push((owned(key), PlistValue::Text(value.clone())));
    assert(entry_views(entries@) =~= entry_views(old(entries)@).push(
        (key@, PlistValueView::Text(value@)),
    ));
}

/// Adds to `entries` the key `key` with the flag `value`.
fn push_flag(entries: &mut Vec<(String, PlistValue)>, key: &str, value: bool)
    ensures
        entry_views(final(entries)@) == entry_views(old(entries)@).push(
            (key@, PlistValueView::Flag(value)),
        ),
{
    entries.push((owned(key), PlistValue::Flag(value)));
    assert(entry_views(entries@) =~= entry_views(old(entries)@).push(
        (key@, PlistValueView::Flag(value)),
    ));
}

impl InfoPlist {
    /// The manifest as the property list that is written: each key with its
    /// value, in the order of the document.
    pub fn entries(&self) -> (r: Vec<(String, PlistValue)>)
        ensures
            entry_views(r@) == self@.entries(),
    {
        let mut table: Vec<(String, String)> = Vec::new();
        let n: usize = self.ls_environment.len();
        let mut i: usize = 0;
        while i < n
            invariant
                n == self.ls_environment.len(),
                i <= n,
                table.len() == i,
                forall|j: int|
                    0 <= j < i ==> table[j].0@ == self.ls_environment[j].0@ && table[j].1@
                        == self.ls_environment[j].1@,
            decreases n - i,
        {
            table.push((self.ls_environment[i].0.clone(), self.ls_environment[i].1.clone()));
            i = i + 1;
        }
        let environment = PlistValue::Table(table);
        assert(environment@ == PlistValueView::Table(self@.ls_environment)) by {
            assert(environment@->Table_0 =~= self@.ls_environment);
        }
        let mut r: Vec<(String, PlistValue)> = Vec::new();
        assert(entry_views(r@) =~= Seq::empty());
        push_text(&mut r, "CFBundleDevelopmentRegion", &self.cf_bundle_development_region);
        push_text(&mut r, "CFBundleDisplayName", &self.cf_bundle_display_name);
        push_text(&mut r, "CFBundleExecutable", &self.cf_bundle_executable);
        push_text(&mut r, "CFBundleIdentifier", &self.cf_bundle_identifier);
        push_text(&mut r, "CFBundleInfoDictionaryVersion", &self.cf_bundle_info_dictionary_version);
        push_text(&mut r, "CFBundleName", &self.cf_bundle_name);
        push_text(&mut r, "CFBundlePackageType", &self.cf_bundle_package_type);
        push_text(&mut r, "CFBundleSignature", &self.cf_bundle_signature);
        push_text(&mut r, "CFBundleVersion", &self.cf_bundle_version);
        push_text(&mut r, "CFBundleShortVersionString", &self.cf_bundle_short_version_string);
        let ghost before = r@;
        r.push((owned("LSEnvironment"), environment));
        assert(entry_views(r@) =~= entry_views(before).push(
            ("LSEnvironment"@, PlistValueView::Table(self@.ls_environment)),
        ));
        push_flag(&mut r, "LSFileQuarantineEnabled", self.ls_file_quarantine_enabled);
        push_text(&mut r, "LSMinimumSystemVersion", &self.ls_minimum_system_version);
        match &self.ls_ui_element {
            Some(value) => {
                push_text(&mut r, "LSUIElement", value);
            },
            None => {},
        }
        push_text(
            &mut r,
            "NSBluetoothAlwaysUsageDescription",
            &self.ns_bluetooth_always_usage_description,
        );
        push_flag(
            &mut r,
            "NSSupportsAutomaticGraphicsSwitching",
            self.ns_supports_automatic_graphics_switching,
        );
        push_text(
            &mut r,
            "NSWebBrowserPublicKeyCredentialUsageDescription",
            &self.ns_web_browser_publickey_credential_usage_description,
        );
        push_text(&mut r, "NSCameraUsageDescription", &self.ns_camera_usage_description);
        push_text(&mut r, "NSMicrophoneUsageDescription", &self.ns_microphone_usage_description);
        assert(entry_views(r@) =~= self@.entries());
        r
    }
}

/// The step that writes the manifest of `descriptor`'s bundle into `dir`, the
/// bundle's `Contents` directory.
pub fn create_info_plist(dir: &FilePath, descriptor: &BundleDescriptor) -> (r: Step)
    ensures
        r@ == (StepView::WriteManifest {
            path: dir@.join(manifest_file_name()),
            manifest: manifest_spec(descriptor@),
        }),
{
    Step::WriteManifest { path: dir.join("Info.plist"), manifest: InfoPlist::for_bundle(descriptor) }
}

} // verus!
