//! Process-wide configuration and the daily report.

use crate::model::{ReportView, SettingsView, Text};
use crate::record::{copy_text, text_of};
use vstd::prelude::*;
use vstd::string::StringExecFns;

verus! {

/// The endpoint used where the settings name none.
pub open spec fn default_base_url() -> Text {
    "https://api.openai.com/v1"@
}

/// The model used where the settings name none.
pub open spec fn default_model() -> Text {
    "gpt-4o-mini"@
}

/// What the caller is told when no API key is configured.
pub open spec fn missing_key_message() -> Text {
    "Missing OpenAI API key. Please configure it in settings."@
}

/// The configuration of the classifier and summarizer calls.
#[derive(Debug, PartialEq, Eq)]
pub struct Settings {
    pub openai_api_key: Option<String>,
    pub base_url: Option<String>,
    pub model: Option<String>,
    /// The user's work habits, goals and preferences, in free text.
    pub user_context: Option<String>,
    /// How many tabs to classify in one call.
    pub analyze_batch_size: Option<u32>,
}

impl View for Settings {
    type V = SettingsView;

    open spec fn view(&self) -> SettingsView {
        SettingsView {
            openai_api_key: text_of(self.openai_api_key),
            base_url: text_of(self.base_url),
            model: text_of(self.model),
            user_context: text_of(self.user_context),
            analyze_batch_size: self.analyze_batch_size,
        }
    }
}

/// The settings of a fresh installation.
pub open spec fn default_settings() -> SettingsView {
    SettingsView {
        openai_api_key: None,
        base_url: Some(default_base_url()),
        model: Some(default_model()),
        user_context: None,
        analyze_batch_size: Some(30u32),
    }
}

impl Default for Settings {
    fn default() -> (r: Self)
        ensures
            r@ == default_settings(),
    {
        Settings {
            openai_api_key: None,
            base_url: Some(String::from_str("https://api.openai.com/v1")),
            model: Some(String::from_str("gpt-4o-mini")),
            user_context: None,
            analyze_batch_size: Some(30),
        }
    }
}

impl Clone for Settings {
    fn clone(&self) -> (r: Self)
        ensures
            r == *self,
            r@ == self@,
    {
        Settings {
            openai_api_key: copy_text(&self.openai_api_key),
            base_url: copy_text(&self.base_url),
            model: copy_text(&self.model),
            user_context: copy_text(&self.user_context),
            analyze_batch_size: self.analyze_batch_size,
        }
    }
}

/// The last generated report; the store holds at most one.
#[derive(Debug, PartialEq, Eq)]
pub struct DailyReport {
    pub date: String,
    pub content: String,
    pub generated_at: i64,
}

impl View for DailyReport {
    type V = ReportView;

    open spec fn view(&self) -> ReportView {
        ReportView { date: self.date@, content: self.content@, generated_at: self.generated_at }
    }
}

impl Clone for DailyReport {
    fn clone(&self) -> (r: Self)
        ensures
            r == *self,
            r@ == self@,
    {
        DailyReport {
            date: self.date.clone(),
            content: self.content.clone(),
            generated_at: self.generated_at,
        }
    }
}

/// The model of an optional report.
pub open spec fn report_of(r: Option<DailyReport>) -> Option<ReportView> {
    match r {
        Some(t) => Some(t@),
        None => None,
    }
}

/// A configured value counts only when it is present and not empty.
pub open spec fn configured(value: Option<Text>) -> Option<Text> {
    match value {
        Some(t) => if t.len() > 0 {
            Some(t)
        } else {
            None
        },
        None => None,
    }
}

/// `configured(value)`, or `fallback` where nothing is configured.
pub open spec fn configured_or(value: Option<Text>, fallback: Text) -> Text {
    match configured(value) {
        Some(t) => t,
        None => fallback,
    }
}

/// The API key, or the message that tells the user to configure one.
pub fn get_api_key(settings: &Settings) -> (r: Result<String, String>)
    ensures
        match r {
            Ok(key) => configured(settings@.openai_api_key) == Some(key@),
            Err(message) => configured(settings@.openai_api_key) is None && message@
                == missing_key_message(),
        },
{
    match &settings.openai_api_key {
        Some(key) => {
            if !key.as_str().is_empty() {
                return Ok(key.clone());
            }
        },
        None => {},
    }
    Err(String::from_str("Missing OpenAI API key. Please configure it in settings."))
}

/// The configured endpoint, or the default one.
pub fn get_base_url(settings: &Settings) -> (r: String)
    ensures
        r@ == configured_or(settings@.base_url, default_base_url()),
{
    match &settings.base_url {
        Some(url) => {
            if !url.as_str().is_empty() {
                return url.clone();
            }
        },
        None => {},
    }
    String::from_str("https://api.openai.com/v1")
}

/// The configured model name, or the default one.
pub fn get_model(settings: &Settings) -> (r: String)
    ensures
        r@ == configured_or(settings@.model, default_model()),
{
    match &settings.model {
        Some(model) => {
            if !model.as_str().is_empty() {
                return model.clone();
            }
        },
        None => {},
    }
    String::from_str("gpt-4o-mini")
}

} // verus!
