//! Service installation logic.
//!
//! Installing a candidate as a persistent service is done through OS
//! utilities driven by shell commands. The commands themselves, and the
//! interpretation of what the utilities print back, are built and verified
//! here; running the commands is the surrounding driver's job.

use vstd::prelude::*;
use vstd::string::*;

verus! {

/// Manages the persistent background service for one service name.
pub struct ServiceManager {
    pub service_name: String,
}

impl ServiceManager {
    /// A manager for the service of the given name.
    pub fn new(service_name: &str) -> (s: Self)
        ensures
            s.service_name@ == service_name@,
    {
        ServiceManager { service_name: String::from_str(service_name) }
    }

    /// The shell command that stops the service.
    pub fn stop_command(&self) -> (r: String)
        ensures
            r@ == "Start-Process 'sc.exe' -ArgumentList 'stop "@ + self.service_name@
                + "' -Verb RunAs"@,
    {
        let mut s = String::from_str("Start-Process 'sc.exe' -ArgumentList 'stop ");
        s.append(self.service_name.as_str());
        s.append("' -Verb RunAs");
        s
    }

    /// The shell command that deletes the service.
    pub fn delete_command(&self) -> (r: String)
        ensures
            r@ == "Start-Process 'sc.exe' -ArgumentList 'delete "@ + self.service_name@
                + "' -Verb RunAs"@,
    {
        let mut s = String::from_str("Start-Process 'sc.exe' -ArgumentList 'delete ");
        s.append(self.service_name.as_str());
        s.append("' -Verb RunAs");
        s
    }

    /// The shell command that starts the service.
    pub fn start_command(&self) -> (r: String)
        ensures
            r@ == "Start-Process 'sc.exe' -ArgumentList 'start "@ + self.service_name@
                + "' -Verb RunAs"@,
    {
        let mut s = String::from_str("Start-Process 'sc.exe' -ArgumentList 'start ");
        s.append(self.service_name.as_str());
        s.append("' -Verb RunAs");
        s
    }

    /// The shell command that reports `exists` when the service is already
    /// installed.
    pub fn check_command(&self) -> (r: String)
        ensures
            r@ == "$service = Get-Service -Name '"@ + self.service_name@
                + "' -ErrorAction SilentlyContinue; if ($service) { Write-Output 'exists' }"@,
    {
        let mut s = String::from_str("$service = Get-Service -Name '");
        s.append(self.service_name.as_str());
        s.append("' -ErrorAction SilentlyContinue; if ($service) { Write-Output 'exists' }");
        s
    }

    /// The shell command that creates the service around the given batch
    /// file and prints the creator's exit code.
    pub fn create_command(&self, bat_file_path: &str) -> (r: String)
        ensures
            r@ == "$process = Start-Process 'sc.exe' -ArgumentList 'create "@ + self.service_name@
                + " binPath= \"cmd.exe /c \\\""@ + bat_file_path@
                + "\\\"\" start= auto' -Verb RunAs -PassThru; $process.WaitForExit(); Write-Output $process.ExitCode"@,
    {
        let mut s = String::from_str("$process = Start-Process 'sc.exe' -ArgumentList 'create ");
        s.append(self.service_name.as_str());
        s.append(" binPath= \"cmd.exe /c \\\"");
        s.append(bat_file_path);
        s.append(
            "\\\"\" start= auto' -Verb RunAs -PassThru; $process.WaitForExit(); Write-Output $process.ExitCode",
        );
        s
    }
}

/// The fixed shell command that force-stops the bypass process.
pub fn terminate_process_command() -> (r: String)
    ensures
        r@ == "Start-Process 'powershell' -ArgumentList 'Stop-Process -Name \"winws\" -Force' -Verb RunAs"@,
{
    String::from_str(
        "Start-Process 'powershell' -ArgumentList 'Stop-Process -Name \"winws\" -Force' -Verb RunAs",
    )
}

/// Whether the check command's output says the service already exists.
pub fn service_exists_in(output: &str) -> (r: bool)
    ensures
        r == crate::text::contains_seq(output@, "exists"@),
{
    crate::text::contains_sub(output, "exists")
}

/// What a shell command's captured output means: success with an empty
/// error stream yields the output stream; otherwise the error stream, or
/// failing that the output stream, or a fixed fallback line, is the error.
pub open spec fn command_report(success: bool, out: Seq<char>, err: Seq<char>) -> Result<
    Seq<char>,
    Seq<char>,
> {
    if success {
        if err.len() == 0 {
            Ok(out)
        } else {
            Err(err)
        }
    } else {
        if err.len() > 0 {
            Err(err)
        } else if out.len() > 0 {
            Err(out)
        } else {
            Err("Unknown error occurred while executing PowerShell command"@)
        }
    }
}

/// Interprets a finished shell command: its exit status and what it wrote to
/// its output and error streams.
pub fn interpret_command_output(success: bool, stdout: &str, stderr: &str) -> (r: Result<
    String,
    String,
>)
    ensures
        match r {
            Ok(s) => command_report(success, stdout@, stderr@) == Ok::<Seq<char>, Seq<char>>(s@),
            Err(e) => command_report(success, stdout@, stderr@) == Err::<Seq<char>, Seq<char>>(e@),
        },
{
    if success {
        if stderr.unicode_len() == 0 {
            Ok(String::from_str(stdout))
        } else {
            Err(String::from_str(stderr))
        }
    } else {
        if stderr.unicode_len() > 0 {
            Err(String::from_str(stderr))
        } else if stdout.unicode_len() > 0 {
            Err(String::from_str(stdout))
        } else {
            Err(String::from_str("Unknown error occurred while executing PowerShell command"))
        }
    }
}

/// An ASCII decimal digit.
pub open spec fn is_digit_char(c: char) -> bool {
    '0' as u32 <= c as u32 <= '9' as u32
}

/// Index of the first digit at or after `i`, or the length when there is
/// none.
pub open spec fn first_digit_from(s: Seq<char>, i: int) -> int
    decreases s.len() - i,
{
    if i < 0 || i >= s.len() {
        s.len() as int
    } else if is_digit_char(s[i]) {
        i
    } else {
        first_digit_from(s, i + 1)
    }
}

/// End (exclusive) of the digit run starting at `i`: the first non-digit
/// index at or after `i`.
pub open spec fn digit_run_end(s: Seq<char>, i: int) -> int
    decreases s.len() - i,
{
    if i < 0 || i >= s.len() {
        s.len() as int
    } else if !is_digit_char(s[i]) {
        i
    } else {
        digit_run_end(s, i + 1)
    }
}

/// Numeric value of the digits `s[i..j)`.
pub open spec fn digits_value(s: Seq<char>, i: int, j: int) -> int
    decreases j - i,
{
    if j <= i {
        0
    } else {
        digits_value(s, i, j - 1) * 10 + (s[j - 1] as u32 - '0' as u32)
    }
}

/// The first number in `s`: the value of the leftmost maximal digit run,
/// provided it fits a 32-bit integer.
pub open spec fn first_number_spec(s: Seq<char>) -> Option<int> {
    let i = first_digit_from(s, 0);
    if i == s.len() {
        None
    } else {
        let j = digit_run_end(s, i);
        let v = digits_value(s, i, j);
        if v <= i32::MAX {
            Some(v)
        } else {
            None
        }
    }
}

/// Relies on `regex::Regex::find` with the pattern `[0-9]+`: the leftmost
/// maximal run of ASCII digits, and on `str::parse::<i32>`, which accepts
/// such a run exactly when its value fits.
#[verifier::external_body]
pub(crate) fn first_number_in(s: &str) -> (r: Option<i32>)
    ensures
        match r {
            Some(v) => first_number_spec(s@) == Some(v as int),
            None => first_number_spec(s@) is None,
        },
{
    match regex::Regex::new("[0-9]+") {
        Ok(re) => match re.find(s) {
            Some(m) => m.as_str().parse::<i32>().ok(),
            None => None,
        },
        Err(_) => None,
    }
}

/// How a service-creation attempt ended, read off the creator's exit code.
#[derive(Debug, PartialEq, Eq, Structural, Clone, Copy)]
pub enum ServiceInstallOutcome {
    /// Exit code 0: the service was created.
    Installed,
    /// Exit code 5: access denied.
    AccessDenied,
    /// Exit code 740: elevation required.
    ElevationRequired,
    /// Exit code 1073: a service of that name already exists.
    AlreadyInstalled,
    /// Any other exit code, carried for the report.
    Failed(i32),
}

/// The outcome that a creator exit code denotes.
pub open spec fn install_outcome_of(code: i32) -> ServiceInstallOutcome {
    if code == 0 {
        ServiceInstallOutcome::Installed
    } else if code == 5 {
        ServiceInstallOutcome::AccessDenied
    } else if code == 740 {
        ServiceInstallOutcome::ElevationRequired
    } else if code == 1073 {
        ServiceInstallOutcome::AlreadyInstalled
    } else {
        ServiceInstallOutcome::Failed(code)
    }
}

/// Classifies a service-creator exit code.
pub fn classify_exit_code(code: i32) -> (r: ServiceInstallOutcome)
    ensures
        r == install_outcome_of(code),
{
    if code == 0 {
        ServiceInstallOutcome::Installed
    } else if code == 5 {
        ServiceInstallOutcome::AccessDenied
    } else if code == 740 {
        ServiceInstallOutcome::ElevationRequired
    } else if code == 1073 {
        ServiceInstallOutcome::AlreadyInstalled
    } else {
        ServiceInstallOutcome::Failed(code)
    }
}

/// Reads the service-creation outcome from what the creation command
/// printed: the first number in the output is the creator's exit code.
/// `None` when the output held no usable number.
pub fn interpret_create_output(output: &str) -> (r: Option<ServiceInstallOutcome>)
    ensures
        match first_number_spec(output@) {
            Some(code) => r == Some(install_outcome_of(code as i32)),
            None => r is None,
        },
{
    match first_number_in(output) {
        Some(code) => Some(classify_exit_code(code)),
        None => None,
    }
}

} // verus!
