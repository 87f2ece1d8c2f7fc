//! Application settings: what counts as configured, how the answers typed
//! during setup are recorded, and how the "run images now?" answer is read.

use vstd::prelude::*;
use crate::text::{trim_text, trimmed};

verus! {

/// Bit pattern of the `f32` value `1.0`, the settings version this tool writes.
pub const CURRENT_VERSION_BITS: u32 = 0x3F80_0000;

/// What a connection to the FTP server needs.
pub struct FtpAttributes {
    pub ftp_url: String,
    pub ftp_user: String,
    pub ftp_password: String,
}

/// The stored settings. The version is kept as the bit pattern of the
/// `f32` written on disk; two `f32` values other than NaN are equal
/// exactly when their bit patterns are, and `1.0` has a single one.
pub struct ConfigApp {
    pub ftp_url: String,
    pub ftp_user: String,
    pub ftp_password: String,
    pub directory_guias_cpm: String,
    pub is_it_configured: bool,
    pub version_bits: u32,
}

impl Default for ConfigApp {
    fn default() -> (r: Self)
        ensures
            r.ftp_url@ == Seq::<char>::empty(),
            r.ftp_user@ == Seq::<char>::empty(),
            r.ftp_password@ == Seq::<char>::empty(),
            r.directory_guias_cpm@ == Seq::<char>::empty(),
            !r.is_it_configured,
            r.version_bits == CURRENT_VERSION_BITS,
    {
        ConfigApp {
            ftp_url: String::new(),
            ftp_user: String::new(),
            ftp_password: String::new(),
            directory_guias_cpm: String::new(),
            is_it_configured: false,
            version_bits: CURRENT_VERSION_BITS,
        }
    }
}

/// The lower-case form of a text, as `str::to_lowercase` computes it
/// from the Unicode case tables.
pub uninterp spec fn lowercase(s: Seq<char>) -> Seq<char>;

/// `str::to_lowercase`. Claimed: the result is `lowercase` of the input,
/// a function of the input characters alone; the tables behind it are
/// not restated here.
#[verifier::external_body]
fn to_lowercase(s: &str) -> (r: String)
    ensures
        r@ == lowercase(s@),
{
    s.to_lowercase()
}

/// The only answer that means yes.
pub open spec fn yes_answer() -> Seq<char> {
    "si"@
}

/// Whether an answer, already trimmed and lower-cased, is the yes answer.
pub fn is_affirmative(normalized: &str) -> (r: bool)
    ensures
        r == (normalized@ == yes_answer()),
{
    let expected = String::from_str("si");
    let given = String::from_str(normalized);
    given == expected
}

/// Whether the answer typed after setup asks to go on processing images:
/// the answer, trimmed and lower-cased, must read `si`.
pub fn wants_to_run_images(answer: &str) -> (r: bool)
    ensures
        r == (lowercase(trimmed(answer@)) == yes_answer()),
{
    let t = trim_text(answer);
    let lowered = to_lowercase(t.as_str());
    is_affirmative(lowered.as_str())
}

/// `old` followed by `line`, trimmed: what a setup answer leaves in a field,
/// since each line read is appended to the field before trimming.
pub open spec fn answered(old: Seq<char>, line: Seq<char>) -> Seq<char> {
    trimmed(old + line)
}

fn record_answer(field: &String, line: &str) -> (r: String)
    ensures
        r@ == answered(field@, line@),
{
    let mut joined = field.clone();
    joined.append(line);
    trim_text(joined.as_str())
}

impl ConfigApp {
    /// The settings are usable: setup was completed and they carry the
    /// current version.
    pub open spec fn spec_is_configured(&self) -> bool {
        self.is_it_configured && self.version_bits == CURRENT_VERSION_BITS
    }

    pub fn is_configured(&self) -> (r: bool)
        ensures
            r == self.spec_is_configured(),
    {
        self.is_it_configured && self.version_bits == CURRENT_VERSION_BITS
    }

    /// Records the four lines typed during setup: each is appended to its
    /// field and the field is trimmed; the settings are then marked as
    /// configured. The version is left as it was.
    pub fn require_config_data(
        &mut self,
        url_line: &str,
        user_line: &str,
        password_line: &str,
        directory_line: &str,
    )
        ensures
            final(self).ftp_url@ == answered(old(self).ftp_url@, url_line@),
            final(self).ftp_user@ == answered(old(self).ftp_user@, user_line@),
            final(self).ftp_password@ == answered(old(self).ftp_password@, password_line@),
            final(self).directory_guias_cpm@ == answered(old(self).directory_guias_cpm@, directory_line@),
            final(self).is_it_configured,
            final(self).version_bits == old(self).version_bits,
    {
        let url = record_answer(&self.ftp_url, url_line);
        let user = record_answer(&self.ftp_user, user_line);
        let password = record_answer(&self.ftp_password, password_line);
        let directory = record_answer(&self.directory_guias_cpm, directory_line);
        self.ftp_url = url;
        self.ftp_user = user;
        self.ftp_password = password;
        self.directory_guias_cpm = directory;
        self.is_it_configured = true;
    }

    /// What a connection to the FTP server needs, copied from the settings.
    pub fn get_ftp_attributes(&self) -> (r: FtpAttributes)
        ensures
            r.ftp_url@ == self.ftp_url@,
            r.ftp_user@ == self.ftp_user@,
            r.ftp_password@ == self.ftp_password@,
    {
        FtpAttributes {
            ftp_url: self.ftp_url.clone(),
            ftp_user: self.ftp_user.clone(),
            ftp_password: self.ftp_password.clone(),
        }
    }
}

/// Law: settings fresh from `default` are not usable, and recording the
/// setup answers makes settings usable exactly when they carry the current
/// version; so default settings become usable once setup is answered.
pub proof fn law_setup_makes_configured(before: ConfigApp, after: ConfigApp)
    requires
        after.is_it_configured,
        after.version_bits == before.version_bits,
    ensures
        after.spec_is_configured() <==> before.version_bits == CURRENT_VERSION_BITS,
        !before.is_it_configured && before.version_bits == CURRENT_VERSION_BITS
            ==> after.spec_is_configured() && !before.spec_is_configured(),
{
}

} // verus!
