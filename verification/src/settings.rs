use vstd::prelude::*;

verus! {

/// What a settings text holds under a key, as tinyjson reads it.
#[derive(Debug, Clone)]
pub enum SettingLookup {
    /// The text is not JSON.
    NotJson,
    /// The text is no JSON object with a member of that name.
    Missing,
    /// The member is there but is not a string.
    NotString,
    /// The member is this string.
    Text(String),
}

/// The mathematical value of a [`SettingLookup`].
pub enum SettingLookupView {
    NotJson,
    Missing,
    NotString,
    Text(Seq<char>),
}

impl View for SettingLookup {
    type V = SettingLookupView;

    open spec fn view(&self) -> SettingLookupView {
        match self {
            SettingLookup::NotJson => SettingLookupView::NotJson,
            SettingLookup::Missing => SettingLookupView::Missing,
            SettingLookup::NotString => SettingLookupView::NotString,
            SettingLookup::Text(s) => SettingLookupView::Text(s@),
        }
    }
}

/// What tinyjson reads from the settings text `text` under the key `key`.
pub uninterp spec fn settings_str_member(text: Seq<char>, key: Seq<char>) -> SettingLookupView;

/// `text.parse::<tinyjson::JsonValue>()`, then the object's members
/// (`get::<HashMap<String, JsonValue>>()`), then `HashMap::get(key)`, told
/// apart by whether the member is a `JsonValue::String`.
#[verifier::external_body]
fn str_setting_of_text(text: &str, key: &str) -> (r: SettingLookup)
    ensures
        r@ == settings_str_member(text@, key@),
{
    match text.parse::<tinyjson::JsonValue>() {
        Err(_) => SettingLookup::NotJson,
        Ok(root) => match root.get::<std::collections::HashMap<String, tinyjson::JsonValue>>() {
            None => SettingLookup::Missing,
            Some(members) => match members.get(key) {
                None => SettingLookup::Missing,
                Some(tinyjson::JsonValue::String(s)) => SettingLookup::Text(s.clone()),
                Some(_) => SettingLookup::NotString,
            },
        },
    }
}

/// Why a settings text gives no settings.
#[derive(Debug, Clone)]
pub enum SettingsError {
    /// The text is not JSON.
    NotJson,
    /// The text has no member of this name.
    MissingKey(String),
}

/// The mathematical value of a [`SettingsError`].
pub enum SettingsErrorView {
    NotJson,
    MissingKey(Seq<char>),
}

impl View for SettingsError {
    type V = SettingsErrorView;

    open spec fn view(&self) -> SettingsErrorView {
        match self {
            SettingsError::NotJson => SettingsErrorView::NotJson,
            SettingsError::MissingKey(k) => SettingsErrorView::MissingKey(k@),
        }
    }
}

/// The string settings of the audio box, each as the settings text holds
/// it: missing, not a string, or a string.
#[derive(Debug, Clone)]
pub struct Settings {
    rfid_spi_dev: Option<Option<String>>,
    audio_base_dir: Option<Option<String>>,
}

/// A setting taken by its view: `None` when the member is missing,
/// `Some(None)` when it is not a string.
pub open spec fn member_view(m: Option<Option<String>>) -> Option<Option<Seq<char>>> {
    match m {
        None => None,
        Some(None) => Some(None),
        Some(Some(s)) => Some(Some(s@)),
    }
}

/// The mathematical value of [`Settings`].
pub struct SettingsView {
    pub rfid_spi_dev: Option<Option<Seq<char>>>,
    pub audio_base_dir: Option<Option<Seq<char>>>,
}

impl View for Settings {
    type V = SettingsView;

    closed spec fn view(&self) -> SettingsView {
        SettingsView {
            rfid_spi_dev: member_view(self.rfid_spi_dev),
            audio_base_dir: member_view(self.audio_base_dir),
        }
    }
}

/// A looked-up member as a setting: `None` when the member is missing.
pub open spec fn member_of_lookup(lookup: SettingLookupView) -> Option<Option<Seq<char>>> {
    match lookup {
        SettingLookupView::Text(s) => Some(Some(s)),
        SettingLookupView::NotString => Some(None),
        _ => None,
    }
}

/// The settings that the text `text` gives. Only a text that is not JSON
/// is refused; a missing member is kept as missing, to be reported when
/// that setting is asked for.
pub open spec fn settings_spec(text: Seq<char>) -> Result<SettingsView, SettingsErrorView> {
    let dev = settings_str_member(text, "rfid_spi_dev"@);
    let dir = settings_str_member(text, "audio_base_dir"@);
    if dev is NotJson || dir is NotJson {
        Err(SettingsErrorView::NotJson)
    } else {
        Ok(SettingsView { rfid_spi_dev: member_of_lookup(dev), audio_base_dir: member_of_lookup(dir) })
    }
}

/// `Result<Settings, SettingsError>` taken by its view.
pub open spec fn settings_result_view(r: Result<Settings, SettingsError>) -> Result<SettingsView, SettingsErrorView> {
    match r {
        Ok(s) => Ok(s@),
        Err(e) => Err(e@),
    }
}

/// The value of a setting when it is asked for: the string, nothing for a
/// member that is not a string, or an error naming the missing key.
pub open spec fn setting_value(member: Option<Option<Seq<char>>>, key: Seq<char>) -> Result<Option<Seq<char>>, SettingsErrorView> {
    match member {
        None => Err(SettingsErrorView::MissingKey(key)),
        Some(v) => Ok(v),
    }
}

/// `Result<Option<&str>, SettingsError>` taken by its view.
pub open spec fn value_view(r: Result<Option<&str>, SettingsError>) -> Result<Option<Seq<char>>, SettingsErrorView> {
    match r {
        Ok(Some(s)) => Ok(Some(s@)),
        Ok(None) => Ok(None),
        Err(e) => Err(e@),
    }
}

/// A looked-up member as a setting.
fn member_of(lookup: SettingLookup) -> (m: Option<Option<String>>)
    ensures
        member_view(m) == member_of_lookup(lookup@),
{
    match lookup {
        SettingLookup::Text(s) => Some(Some(s)),
        SettingLookup::NotString => Some(None),
        _ => None,
    }
}

/// Reads the settings from the text of the settings file; only a text that
/// is not JSON is refused.
pub fn parse_settings(text: &str) -> (r: Result<Settings, SettingsError>)
    ensures
        settings_result_view(r) == settings_spec(text@),
{
    let dev = str_setting_of_text(text, "rfid_spi_dev");
    let dir = str_setting_of_text(text, "audio_base_dir");
    if matches!(dev, SettingLookup::NotJson) || matches!(dir, SettingLookup::NotJson) {
        return Err(SettingsError::NotJson);
    }
    Ok(Settings { rfid_spi_dev: member_of(dev), audio_base_dir: member_of(dir) })
}

/// A setting when it is asked for.
fn value_of<'a>(member: &'a Option<Option<String>>, key: &str) -> (r: Result<Option<&'a str>, SettingsError>)
    ensures
        value_view(r) == setting_value(member_view(*member), key@),
{
    match member {
        None => Err(SettingsError::MissingKey(key.to_string())),
        Some(None) => Ok(None),
        Some(Some(s)) => Ok(Some(s.as_str())),
    }
}

impl Settings {
    /// The path of the SPI device of the RFID reader; an error when the
    /// settings text has no such member.
    pub fn rfid_spi_dev(&self) -> (r: Result<Option<&str>, SettingsError>)
        ensures
            value_view(r) == setting_value(self@.rfid_spi_dev, "rfid_spi_dev"@),
    {
        value_of(&self.rfid_spi_dev, "rfid_spi_dev")
    }

    /// The directory that holds the audio files; an error when the settings
    /// text has no such member.
    pub fn audio_base_dir(&self) -> (r: Result<Option<&str>, SettingsError>)
        ensures
            value_view(r) == setting_value(self@.audio_base_dir, "audio_base_dir"@),
    {
        value_of(&self.audio_base_dir, "audio_base_dir")
    }
}

/// A settings text that is JSON gives settings; each setting that the
/// text holds as the string `v` is read back as `v` unchanged, one that is
/// not a string reads as nothing, and one that is missing is reported as
/// missing under its own key when it is asked for.
pub proof fn lemma_settings_read_back(text: Seq<char>)
    ensures
        ({
            let dev = settings_str_member(text, "rfid_spi_dev"@);
            let dir = settings_str_member(text, "audio_base_dir"@);
            &&& (dev is NotJson || dir is NotJson) <==> settings_spec(text) == Err::<SettingsView, SettingsErrorView>(SettingsErrorView::NotJson)
            &&& settings_spec(text) matches Ok(v) ==> {
                &&& (dev matches SettingLookupView::Text(s) ==> setting_value(v.rfid_spi_dev, "rfid_spi_dev"@)
                        == Ok::<Option<Seq<char>>, SettingsErrorView>(Some(s)))
                &&& (dir matches SettingLookupView::Text(s) ==> setting_value(v.audio_base_dir, "audio_base_dir"@)
                        == Ok::<Option<Seq<char>>, SettingsErrorView>(Some(s)))
                &&& (dev is NotString ==> setting_value(v.rfid_spi_dev, "rfid_spi_dev"@)
                        == Ok::<Option<Seq<char>>, SettingsErrorView>(None))
                &&& (dir is NotString ==> setting_value(v.audio_base_dir, "audio_base_dir"@)
                        == Ok::<Option<Seq<char>>, SettingsErrorView>(None))
                &&& (dev is Missing ==> setting_value(v.rfid_spi_dev, "rfid_spi_dev"@)
                        == Err::<Option<Seq<char>>, SettingsErrorView>(SettingsErrorView::MissingKey("rfid_spi_dev"@)))
                &&& (dir is Missing ==> setting_value(v.audio_base_dir, "audio_base_dir"@)
                        == Err::<Option<Seq<char>>, SettingsErrorView>(SettingsErrorView::MissingKey("audio_base_dir"@)))
            }
        }),
{
}

} // verus!
