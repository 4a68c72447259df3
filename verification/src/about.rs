//! The content of the "about" dialog.

use vstd::prelude::*;

verus! {

/// The licence that a program is distributed under, as an about dialog
/// names it.
#[derive(Clone, Copy, Debug, PartialEq, Eq, Structural)]
pub enum License {
    Unknown,
    Custom,
    /// GNU General Public License, version 2.0 or later.
    Gpl20,
    /// GNU General Public License, version 3.0 or later.
    Gpl30,
    Lgpl21,
    Lgpl30,
    Bsd,
    MitX11,
    Artistic,
    Gpl20Only,
    Gpl30Only,
    Lgpl21Only,
    Lgpl30Only,
    Agpl30,
    Agpl30Only,
    Bsd3,
    Apache20,
    Mpl20,
}

/// The content of an about dialog as contracts see it.
#[verifier::ext_equal]
pub struct AboutDialogView {
    pub application_name: Seq<char>,
    pub application_icon: Seq<char>,
    pub developer_name: Seq<char>,
    pub version: Seq<char>,
    pub developers: Seq<Seq<char>>,
    pub translator_credits: Seq<char>,
    pub copyright: Seq<char>,
    pub license_type: License,
    pub website: Seq<char>,
}

/// What the application's about dialog holds, for a given version string and
/// a given credit to the translators. Everything else is fixed.
pub open spec fn about_dialog_view(
    version: Seq<char>,
    translator_credits: Seq<char>,
) -> AboutDialogView {
    AboutDialogView {
        application_name: "Autopilot"@,
        application_icon: "io.github.v81d.Autopilot"@,
        developer_name: "v81d"@,
        version,
        developers: seq!["v81d"@],
        translator_credits,
        copyright: "\u{c2}\u{a9} 2026 v81d"@,
        license_type: License::Gpl30,
        website: "https://github.com/v81d/autopilot"@,
    }
}

/// The views of a run of strings, in the same order.
pub open spec fn string_views(strings: Seq<String>) -> Seq<Seq<char>> {
    strings.map_values(|string: String| string@)
}

/// The content of an about dialog.
#[derive(Clone, Debug, PartialEq, Eq)]
pub struct AboutDialog {
    pub application_name: String,
    pub application_icon: String,
    pub developer_name: String,
    pub version: String,
    pub developers: Vec<String>,
    pub translator_credits: String,
    pub copyright: String,
    pub license_type: License,
    pub website: String,
}

impl View for AboutDialog {
    type V = AboutDialogView;

    open spec fn view(&self) -> AboutDialogView {
        AboutDialogView {
            application_name: self.application_name@,
            application_icon: self.application_icon@,
            developer_name: self.developer_name@,
            version: self.version@,
            developers: string_views(self.developers@),
            translator_credits: self.translator_credits@,
            copyright: self.copyright@,
            license_type: self.license_type,
            website: self.website@,
        }
    }
}

/// Fills in the application's about dialog. The version string and the credit
/// to the translators are taken as given; the name, the icon, the developer,
/// the copyright line, the licence and the website are the application's own.
pub fn about_dialog(version: &str, translator_credits: String) -> (dialog: AboutDialog)
    ensures
        dialog@ == about_dialog_view(version@, translator_credits@),
{
    let mut developers: Vec<String> = Vec::new();
    developers.push("v81d".to_owned());
    assert(string_views(developers@) =~= seq!["v81d"@]);
    AboutDialog {
        application_name: "Autopilot".to_owned(),
        application_icon: "io.github.v81d.Autopilot".to_owned(),
        developer_name: "v81d".to_owned(),
        version: version.to_owned(),
        developers,
        translator_credits,
        copyright: "\u{c2}\u{a9} 2026 v81d".to_owned(),
        license_type: License::Gpl30,
        website: "https://github.com/v81d/autopilot".to_owned(),
    }
}

} // verus!
