//! Localized display strings: an explicitly constructed, read-only string
//! table selected once per run by display language and passed into the
//! extractors and the reporter.

use vstd::prelude::*;
use vstd::string::StringExecFns;

use crate::Severity;
use crate::numfmt::dec_chars_of;
use crate::numfmt::i64_to_string;

verus! {

/// A supported display language.
#[derive(Clone, Copy, PartialEq, Eq, Debug, Structural)]
pub enum Language {
    DE,
    EN,
}

/// The read-only table of display strings for one language.
pub struct LocalStrings {
    lang: Language,
}

/// Text of [`LocalStrings::no_devices`] per language.
pub open spec fn no_devices_text(lang: Language) -> Seq<char> {
    match lang {
        Language::DE => "Keine Laufwerke gefunden"@,
        Language::EN => "No drives found"@,
    }
}

/// Text of [`LocalStrings::header_title`] per language.
pub open spec fn header_title_text(lang: Language) -> Seq<char> {
    match lang {
        Language::DE => "Speichermedien-Diagnose"@,
        Language::EN => "Storage Media Diagnostics"@,
    }
}

/// Text of [`LocalStrings::smartctl_start_error`] per language.
pub open spec fn smartctl_start_error_text(lang: Language) -> Seq<char> {
    match lang {
        Language::DE => "smartctl konnte nicht gestartet werden"@,
        Language::EN => "smartctl could not be started"@,
    }
}

/// Text of [`LocalStrings::spare_blocks`] per language.
pub open spec fn spare_blocks_text(lang: Language) -> Seq<char> {
    match lang {
        Language::DE => "Verfügbare Ersatzblöcke"@,
        Language::EN => "Available Spare Blocks"@,
    }
}

/// Text of [`LocalStrings::table_property`] per language.
pub open spec fn table_property_text(lang: Language) -> Seq<char> {
    match lang {
        Language::DE => "Eigenschaft"@,
        Language::EN => "Property"@,
    }
}

/// Text of [`LocalStrings::table_value`] per language.
pub open spec fn table_value_text(lang: Language) -> Seq<char> {
    match lang {
        Language::DE => "Aktueller Wert"@,
        Language::EN => "Current Value"@,
    }
}

/// Text of [`LocalStrings::table_status`] per language.
pub open spec fn table_status_text(lang: Language) -> Seq<char> {
    match lang {
        Language::DE => "Status"@,
        Language::EN => "Status"@,
    }
}

/// Text of [`LocalStrings::status_ok`] per language.
pub open spec fn status_ok_text(lang: Language) -> Seq<char> {
    match lang {
        Language::DE => "✓ OK"@,
        Language::EN => "✓ OK"@,
    }
}

/// Text of [`LocalStrings::status_warning`] per language.
pub open spec fn status_warning_text(lang: Language) -> Seq<char> {
    match lang {
        Language::DE => "⚠️ WARNUNG"@,
        Language::EN => "⚠️ WARNING"@,
    }
}

/// Text of [`LocalStrings::status_critical`] per language.
pub open spec fn status_critical_text(lang: Language) -> Seq<char> {
    match lang {
        Language::DE => "❌ KRITISCH"@,
        Language::EN => "❌ CRITICAL"@,
    }
}

/// Text of [`LocalStrings::drive_health`] per language.
pub open spec fn drive_health_text(lang: Language) -> Seq<char> {
    match lang {
        Language::DE => "Laufwerk-Gesundheit"@,
        Language::EN => "Drive Health"@,
    }
}

/// Text of [`LocalStrings::remaining`] per language.
pub open spec fn remaining_text(lang: Language) -> Seq<char> {
    match lang {
        Language::DE => "% verbleibend"@,
        Language::EN => "% remaining"@,
    }
}

/// Text of [`LocalStrings::transmission_mode`] per language.
pub open spec fn transmission_mode_text(lang: Language) -> Seq<char> {
    match lang {
        Language::DE => "Übertragungsmodus:"@,
        Language::EN => "Transmission mode:"@,
    }
}

/// Text of [`LocalStrings::data_read_label`] per language.
pub open spec fn data_read_label_text(lang: Language) -> Seq<char> {
    match lang {
        Language::DE => "Daten gelesen"@,
        Language::EN => "Data read"@,
    }
}

/// Text of [`LocalStrings::data_written_label`] per language.
pub open spec fn data_written_label_text(lang: Language) -> Seq<char> {
    match lang {
        Language::DE => "Daten geschrieben"@,
        Language::EN => "Data written"@,
    }
}

/// Text of [`LocalStrings::operating_hours_label`] per language.
pub open spec fn operating_hours_label_text(lang: Language) -> Seq<char> {
    match lang {
        Language::DE => "Betriebsstunden"@,
        Language::EN => "Operating hours"@,
    }
}

/// Text of [`LocalStrings::power_cycles_label`] per language.
pub open spec fn power_cycles_label_text(lang: Language) -> Seq<char> {
    match lang {
        Language::DE => "Einschaltzyklen"@,
        Language::EN => "Power cycles"@,
    }
}

/// Text of [`LocalStrings::data_written_approx_label`] per language.
pub open spec fn data_written_approx_label_text(lang: Language) -> Seq<char> {
    match lang {
        Language::DE => "Daten geschrieben (ca.)"@,
        Language::EN => "Data written (approx.)"@,
    }
}

/// Text of [`LocalStrings::unsafe_shutdowns`] per language.
pub open spec fn unsafe_shutdowns_text(lang: Language) -> Seq<char> {
    match lang {
        Language::DE => "Unsichere Abschaltungen"@,
        Language::EN => "Unsafe Shutdowns"@,
    }
}

/// Text of [`LocalStrings::media_errors`] per language.
pub open spec fn media_errors_text(lang: Language) -> Seq<char> {
    match lang {
        Language::DE => "Medienfehler"@,
        Language::EN => "Media Errors"@,
    }
}

/// Text of [`LocalStrings::reallocated_sectors`] per language.
pub open spec fn reallocated_sectors_text(lang: Language) -> Seq<char> {
    match lang {
        Language::DE => "Reallocated Sectors"@,
        Language::EN => "Reallocated Sectors"@,
    }
}

/// Text of [`LocalStrings::spin_retry_count`] per language.
pub open spec fn spin_retry_count_text(lang: Language) -> Seq<char> {
    match lang {
        Language::DE => "Spin Retry Count"@,
        Language::EN => "Spin Retry Count"@,
    }
}

/// Text of [`LocalStrings::drive_health_remaining`] per language.
pub open spec fn drive_health_remaining_text(lang: Language) -> Seq<char> {
    match lang {
        Language::DE => "Drive Health (verbleibend)"@,
        Language::EN => "Drive Health (remaining)"@,
    }
}

/// Text of [`LocalStrings::json_parse_error`] per language.
pub open spec fn json_parse_error_text(lang: Language) -> Seq<char> {
    match lang {
        Language::DE => "JSON-Parsing fehlgeschlagen"@,
        Language::EN => "JSON parsing failed"@,
    }
}

/// Text of the out-of-band critical-warning alert carrying the raw bit value.
pub open spec fn critical_warning_text(lang: Language, value: int) -> Seq<char> {
    match lang {
        Language::DE => "⚠️ KRITISCHE WARNUNG: "@ + dec_chars_of(value),
        Language::EN => "⚠️ CRITICAL WARNING: "@ + dec_chars_of(value),
    }
}

/// Text of the per-device warning when telemetry could not be retrieved.
pub open spec fn smart_data_error_text(lang: Language, device: Seq<char>) -> Seq<char> {
    match lang {
        Language::DE => "✗ "@ + device + " - SMART-Daten konnten nicht abgerufen werden"@,
        Language::EN => "✗ "@ + device + " - SMART data could not be retrieved"@,
    }
}

/// The status-column text for a severity.
pub open spec fn status_text_of(lang: Language, s: Severity) -> Seq<char> {
    match s {
        Severity::Normal => status_ok_text(lang),
        Severity::Warning => status_warning_text(lang),
        Severity::Critical => status_critical_text(lang),
    }
}

impl LocalStrings {
    /// The language this table was built for.
    pub closed spec fn language(&self) -> Language {
        self.lang
    }

    /// Builds the string table for one display language.
    pub fn new(lang: Language) -> (r: LocalStrings)
        ensures
            r.language() == lang,
    {
        LocalStrings { lang }
    }

    pub fn no_devices(&self) -> (r: &'static str)
        ensures
            r@ == no_devices_text(self.language()),
    {
        match self.lang {
            Language::DE => "Keine Laufwerke gefunden",
            Language::EN => "No drives found",
        }
    }

    pub fn header_title(&self) -> (r: &'static str)
        ensures
            r@ == header_title_text(self.language()),
    {
        match self.lang {
            Language::DE => "Speichermedien-Diagnose",
            Language::EN => "Storage Media Diagnostics",
        }
    }

    pub fn smartctl_start_error(&self) -> (r: &'static str)
        ensures
            r@ == smartctl_start_error_text(self.language()),
    {
        match self.lang {
            Language::DE => "smartctl konnte nicht gestartet werden",
            Language::EN => "smartctl could not be started",
        }
    }

    pub fn spare_blocks(&self) -> (r: &'static str)
        ensures
            r@ == spare_blocks_text(self.language()),
    {
        match self.lang {
            Language::DE => "Verfügbare Ersatzblöcke",
            Language::EN => "Available Spare Blocks",
        }
    }

    pub fn table_property(&self) -> (r: &'static str)
        ensures
            r@ == table_property_text(self.language()),
    {
        match self.lang {
            Language::DE => "Eigenschaft",
            Language::EN => "Property",
        }
    }

    pub fn table_value(&self) -> (r: &'static str)
        ensures
            r@ == table_value_text(self.language()),
    {
        match self.lang {
            Language::DE => "Aktueller Wert",
            Language::EN => "Current Value",
        }
    }

    pub fn table_status(&self) -> (r: &'static str)
        ensures
            r@ == table_status_text(self.language()),
    {
        match self.lang {
            Language::DE => "Status",
            Language::EN => "Status",
        }
    }

    pub fn status_ok(&self) -> (r: &'static str)
        ensures
            r@ == status_ok_text(self.language()),
    {
        match self.lang {
            Language::DE => "✓ OK",
            Language::EN => "✓ OK",
        }
    }

    pub fn status_warning(&self) -> (r: &'static str)
        ensures
            r@ == status_warning_text(self.language()),
    {
        match self.lang {
            Language::DE => "⚠️ WARNUNG",
            Language::EN => "⚠️ WARNING",
        }
    }

    pub fn status_critical(&self) -> (r: &'static str)
        ensures
            r@ == status_critical_text(self.language()),
    {
        match self.lang {
            Language::DE => "❌ KRITISCH",
            Language::EN => "❌ CRITICAL",
        }
    }

    pub fn drive_health(&self) -> (r: &'static str)
        ensures
            r@ == drive_health_text(self.language()),
    {
        match self.lang {
            Language::DE => "Laufwerk-Gesundheit",
            Language::EN => "Drive Health",
        }
    }

    pub fn remaining(&self) -> (r: &'static str)
        ensures
            r@ == remaining_text(self.language()),
    {
        match self.lang {
            Language::DE => "% verbleibend",
            Language::EN => "% remaining",
        }
    }

    pub fn transmission_mode(&self) -> (r: &'static str)
        ensures
            r@ == transmission_mode_text(self.language()),
    {
        match self.lang {
            Language::DE => "Übertragungsmodus:",
            Language::EN => "Transmission mode:",
        }
    }

    pub fn data_read_label(&self) -> (r: &'static str)
        ensures
            r@ == data_read_label_text(self.language()),
    {
        match self.lang {
            Language::DE => "Daten gelesen",
            Language::EN => "Data read",
        }
    }

    pub fn data_written_label(&self) -> (r: &'static str)
        ensures
            r@ == data_written_label_text(self.language()),
    {
        match self.lang {
            Language::DE => "Daten geschrieben",
            Language::EN => "Data written",
        }
    }

    pub fn operating_hours_label(&self) -> (r: &'static str)
        ensures
            r@ == operating_hours_label_text(self.language()),
    {
        match self.lang {
            Language::DE => "Betriebsstunden",
            Language::EN => "Operating hours",
        }
    }

    pub fn power_cycles_label(&self) -> (r: &'static str)
        ensures
            r@ == power_cycles_label_text(self.language()),
    {
        match self.lang {
            Language::DE => "Einschaltzyklen",
            Language::EN => "Power cycles",
        }
    }

    pub fn data_written_approx_label(&self) -> (r: &'static str)
        ensures
            r@ == data_written_approx_label_text(self.language()),
    {
        match self.lang {
            Language::DE => "Daten geschrieben (ca.)",
            Language::EN => "Data written (approx.)",
        }
    }

    pub fn unsafe_shutdowns(&self) -> (r: &'static str)
        ensures
            r@ == unsafe_shutdowns_text(self.language()),
    {
        match self.lang {
            Language::DE => "Unsichere Abschaltungen",
            Language::EN => "Unsafe Shutdowns",
        }
    }

    pub fn media_errors(&self) -> (r: &'static str)
        ensures
            r@ == media_errors_text(self.language()),
    {
        match self.lang {
            Language::DE => "Medienfehler",
            Language::EN => "Media Errors",
        }
    }

    pub fn reallocated_sectors(&self) -> (r: &'static str)
        ensures
            r@ == reallocated_sectors_text(self.language()),
    {
        match self.lang {
            Language::DE => "Reallocated Sectors",
            Language::EN => "Reallocated Sectors",
        }
    }

    pub fn spin_retry_count(&self) -> (r: &'static str)
        ensures
            r@ == spin_retry_count_text(self.language()),
    {
        match self.lang {
            Language::DE => "Spin Retry Count",
            Language::EN => "Spin Retry Count",
        }
    }

    pub fn drive_health_remaining(&self) -> (r: &'static str)
        ensures
            r@ == drive_health_remaining_text(self.language()),
    {
        match self.lang {
            Language::DE => "Drive Health (verbleibend)",
            Language::EN => "Drive Health (remaining)",
        }
    }

    pub fn json_parse_error(&self) -> (r: &'static str)
        ensures
            r@ == json_parse_error_text(self.language()),
    {
        match self.lang {
            Language::DE => "JSON-Parsing fehlgeschlagen",
            Language::EN => "JSON parsing failed",
        }
    }

    /// The out-of-band alert line for a non-zero critical-warning value.
    pub fn critical_warning(&self, value: i64) -> (r: String)
        ensures
            r@ == critical_warning_text(self.language(), value as int),
    {
        let mut s = match self.lang {
            Language::DE => "⚠️ KRITISCHE WARNUNG: ".to_owned(),
            Language::EN => "⚠️ CRITICAL WARNING: ".to_owned(),
        };
        s.append(i64_to_string(value).as_str());
        s
    }

    /// The per-device warning line when telemetry could not be retrieved.
    pub fn smart_data_error(&self, device: &str) -> (r: String)
        ensures
            r@ == smart_data_error_text(self.language(), device@),
    {
        let mut s = "✗ ".to_owned();
        s.append(device);
        match self.lang {
            Language::DE => s.append(" - SMART-Daten konnten nicht abgerufen werden"),
            Language::EN => s.append(" - SMART data could not be retrieved"),
        }
        proof {
            assert(s@ =~= smart_data_error_text(self.language(), device@));
        }
        s
    }

    /// The status-column text for a severity.
    pub fn status_text(&self, s: Severity) -> (r: &'static str)
        ensures
            r@ == status_text_of(self.language(), s),
    {
        match s {
            Severity::Normal => self.status_ok(),
            Severity::Warning => self.status_warning(),
            Severity::Critical => self.status_critical(),
        }
    }
}

} // verus!
