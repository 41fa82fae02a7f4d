//! The errors of the library, one family per concern, and their union.

use vstd::prelude::*;
use crate::text::{decimal, decimal_string, octal, octal_string, signed_decimal, signed_decimal_string};

verus! {

/// Failures of the scratch workspace.
#[derive(PartialEq, Debug, Clone)]
pub enum FsError {
    CannotGetTempDir,
    CannotCopyAssets,
    CannotCreateFile { file_path: String },
    CannotWriteBytesToFile { file_path: String, bytes: Vec<u8> },
    CannotSetPermissionsToFile { file_path: String, permissions_mode: u32 },
}

/// Failures to launch the simulator.
#[derive(PartialEq, Debug, Clone)]
pub enum ProcessError {
    CannotSpawnProcess,
    CannotCopyAssets,
    UnsupportedOSAndArch { os: String, arch: String },
}

/// Failures of the supervisor's own state.
#[derive(PartialEq, Debug, Clone)]
pub enum SimulatorError {
    CannotKillProcess,
    ProcessNotStarted,
    StdoutAlreadyConsumed,
    ProcessAlreadyFinished,
    ProcessExitedWithErrorCode { code: Option<i32>, signal: Option<i32> },
    CannotConvertConfigToTOML,
    TimedOutWhileWaitingToBeReady,
    BlockCountOverflow { num_epochs: u64 },
}

/// Failures of the request that generates blocks.
#[derive(PartialEq, Debug, Clone)]
pub enum GenerateBlocksError {
    CannotSendRequest { url: String },
    ResponseStatusIsNotSuccessful { url: String, status: u16 },
    CannotGetTextFromTheResponse { url: String },
    FailedToParseTheResponse { url: String, response: String },
    ResponseCodeIsNotSuccessful { url: String, code: String },
}

/// Failures of the request that reads the initial wallets.
#[derive(PartialEq, Debug, Clone)]
pub enum InitialWalletsError {
    CannotSendRequest { url: String },
    ResponseStatusIsNotSuccessful { url: String, status: u16 },
    CannotGetTextFromTheResponse { url: String },
    FailedToParseTheResponse { url: String, response: String },
    ResponseCodeIsNotSuccessful { url: String, code: String },
    ResponseDataIsMissing { url: String },
}

/// Failures of the request that sets storage keys of one address.
#[derive(PartialEq, Debug, Clone)]
pub enum SetAddressKeysError {
    CannotSendRequest { url: String },
    ResponseStatusIsNotSuccessful { url: String, status: u16 },
    CannotGetTextFromTheResponse { url: String },
    FailedToParseTheResponse { url: String, response: String },
    ResponseCodeIsNotSuccessful { url: String, code: String },
}

/// Failures of the bulk state update.
#[derive(PartialEq, Debug, Clone)]
pub enum SetStateError {
    CannotSendRequest { url: String },
    ResponseStatusIsNotSuccessful { url: String, status: u16 },
    CannotGetTextFromTheResponse { url: String },
    FailedToParseTheResponse { url: String, response: String },
    ResponseCodeIsNotSuccessful { url: String, code: String },
}

/// Any failure of the library.
#[derive(PartialEq, Debug, Clone)]
pub enum LibError {
    Fs(FsError),
    Process(ProcessError),
    Simulator(SimulatorError),
    InitialWallets(InitialWalletsError),
    GenerateBlocks(GenerateBlocksError),
    SetAddressKeys(SetAddressKeysError),
    SetState(SetStateError),
}

impl From<FsError> for LibError {
    fn from(value: FsError) -> (r: LibError)
        ensures
            r == LibError::Fs(value),
    {
        LibError::Fs(value)
    }
}

impl vstd::std_specs::convert::FromSpecImpl<FsError> for LibError {
    open spec fn obeys_from_spec() -> bool {
        true
    }

    open spec fn from_spec(v: FsError) -> LibError {
        LibError::Fs(v)
    }
}

impl From<ProcessError> for LibError {
    fn from(value: ProcessError) -> (r: LibError)
        ensures
            r == LibError::Process(value),
    {
        LibError::Process(value)
    }
}

impl vstd::std_specs::convert::FromSpecImpl<ProcessError> for LibError {
    open spec fn obeys_from_spec() -> bool {
        true
    }

    open spec fn from_spec(v: ProcessError) -> LibError {
        LibError::Process(v)
    }
}

impl From<SimulatorError> for LibError {
    fn from(value: SimulatorError) -> (r: LibError)
        ensures
            r == LibError::Simulator(value),
    {
        LibError::Simulator(value)
    }
}

impl vstd::std_specs::convert::FromSpecImpl<SimulatorError> for LibError {
    open spec fn obeys_from_spec() -> bool {
        true
    }

    open spec fn from_spec(v: SimulatorError) -> LibError {
        LibError::Simulator(v)
    }
}

impl From<InitialWalletsError> for LibError {
    fn from(value: InitialWalletsError) -> (r: LibError)
        ensures
            r == LibError::InitialWallets(value),
    {
        LibError::InitialWallets(value)
    }
}

impl vstd::std_specs::convert::FromSpecImpl<InitialWalletsError> for LibError {
    open spec fn obeys_from_spec() -> bool {
        true
    }

    open spec fn from_spec(v: InitialWalletsError) -> LibError {
        LibError::InitialWallets(v)
    }
}

impl From<GenerateBlocksError> for LibError {
    fn from(value: GenerateBlocksError) -> (r: LibError)
        ensures
            r == LibError::GenerateBlocks(value),
    {
        LibError::GenerateBlocks(value)
    }
}

impl vstd::std_specs::convert::FromSpecImpl<GenerateBlocksError> for LibError {
    open spec fn obeys_from_spec() -> bool {
        true
    }

    open spec fn from_spec(v: GenerateBlocksError) -> LibError {
        LibError::GenerateBlocks(v)
    }
}

impl From<SetAddressKeysError> for LibError {
    fn from(value: SetAddressKeysError) -> (r: LibError)
        ensures
            r == LibError::SetAddressKeys(value),
    {
        LibError::SetAddressKeys(value)
    }
}

impl vstd::std_specs::convert::FromSpecImpl<SetAddressKeysError> for LibError {
    open spec fn obeys_from_spec() -> bool {
        true
    }

    open spec fn from_spec(v: SetAddressKeysError) -> LibError {
        LibError::SetAddressKeys(v)
    }
}

impl From<SetStateError> for LibError {
    fn from(value: SetStateError) -> (r: LibError)
        ensures
            r == LibError::SetState(value),
    {
        LibError::SetState(value)
    }
}

impl vstd::std_specs::convert::FromSpecImpl<SetStateError> for LibError {
    open spec fn obeys_from_spec() -> bool {
        true
    }

    open spec fn from_spec(v: SetStateError) -> LibError {
        LibError::SetState(v)
    }
}

/// The description of `e`.
pub open spec fn fs_error_text(e: FsError) -> Seq<char> {
    match e {
        FsError::CannotGetTempDir => "Cannot get a temporary directory"@,
        FsError::CannotCopyAssets => "Cannot copy assets"@,
        FsError::CannotCreateFile { file_path } => "Cannot create a file at the specified path: "@ + file_path@,
        FsError::CannotWriteBytesToFile { file_path, bytes } => "Cannot write bytes of length "@ + decimal(bytes@.len()) + " in "@ + file_path@,
        FsError::CannotSetPermissionsToFile { file_path, permissions_mode } => "Cannot set permissions 0o"@ + octal(permissions_mode as nat) + " to file "@ + file_path@,
    }
}

impl FsError {
    /// Describes this error in one sentence.
    pub fn message(&self) -> (r: String)
        ensures
            r@ == fs_error_text(*self),
    {
        match self {
            FsError::CannotGetTempDir => {
                String::from_str("Cannot get a temporary directory")
            },
            FsError::CannotCopyAssets => {
                String::from_str("Cannot copy assets")
            },
            FsError::CannotCreateFile { file_path } => {
                let mut r = String::from_str("Cannot create a file at the specified path: ");
                r.append(file_path.as_str());
                r
            },
            FsError::CannotWriteBytesToFile { file_path, bytes } => {
                let mut r = String::from_str("Cannot write bytes of length ");
                let n = decimal_string(bytes.len() as u64);
                r.append(n.as_str());
                r.append(" in ");
                r.append(file_path.as_str());
                r
            },
            FsError::CannotSetPermissionsToFile { file_path, permissions_mode } => {
                let mut r = String::from_str("Cannot set permissions 0o");
                let n = octal_string(*permissions_mode as u64);
                r.append(n.as_str());
                r.append(" to file ");
                r.append(file_path.as_str());
                r
            },
        }
    }
}

/// The description of `e`.
pub open spec fn process_error_text(e: ProcessError) -> Seq<char> {
    match e {
        ProcessError::CannotSpawnProcess => "Cannot spawn process"@,
        ProcessError::CannotCopyAssets => "Cannot copy chain simulator assets"@,
        ProcessError::UnsupportedOSAndArch { os, arch } => "Unsupported OS and arch: "@ + os@ + " "@ + arch@ + ". Supported OS and arch: linux/amd64, darwin/amd64"@,
    }
}

impl ProcessError {
    /// Describes this error in one sentence.
    pub fn message(&self) -> (r: String)
        ensures
            r@ == process_error_text(*self),
    {
        match self {
            ProcessError::CannotSpawnProcess => {
                String::from_str("Cannot spawn process")
            },
            ProcessError::CannotCopyAssets => {
                String::from_str("Cannot copy chain simulator assets")
            },
            ProcessError::UnsupportedOSAndArch { os, arch } => {
                let mut r = String::from_str("Unsupported OS and arch: ");
                r.append(os.as_str());
                r.append(" ");
                r.append(arch.as_str());
                r.append(". Supported OS and arch: linux/amd64, darwin/amd64");
                r
            },
        }
    }
}

/// The description of `e`.
pub open spec fn generate_blocks_error_text(e: GenerateBlocksError) -> Seq<char> {
    match e {
        GenerateBlocksError::CannotSendRequest { url } => "Cannot send the generate blocks request. Url: "@ + url@,
        GenerateBlocksError::ResponseStatusIsNotSuccessful { url, status } => "Generate blocks response's status is not successful: "@ + decimal(status as nat) + ", url: "@ + url@,
        GenerateBlocksError::CannotGetTextFromTheResponse { url } => "No text received in the generate blocks response. Url: "@ + url@,
        GenerateBlocksError::FailedToParseTheResponse { url, response } => "Cannot parse the received generate blocks response: "@ + response@ + ", url: "@ + url@,
        GenerateBlocksError::ResponseCodeIsNotSuccessful { url, code } => "Generate blocks response's code is not successful: "@ + code@ + ", url: "@ + url@,
    }
}

impl GenerateBlocksError {
    /// Describes this error in one sentence.
    pub fn message(&self) -> (r: String)
        ensures
            r@ == generate_blocks_error_text(*self),
    {
        match self {
            GenerateBlocksError::CannotSendRequest { url } => {
                let mut r = String::from_str("Cannot send the generate blocks request. Url: ");
                r.append(url.as_str());
                r
            },
            GenerateBlocksError::ResponseStatusIsNotSuccessful { url, status } => {
                let mut r = String::from_str("Generate blocks response's status is not successful: ");
                let n = decimal_string(*status as u64);
                r.append(n.as_str());
                r.append(", url: ");
                r.append(url.as_str());
                r
            },
            GenerateBlocksError::CannotGetTextFromTheResponse { url } => {
                let mut r = String::from_str("No text received in the generate blocks response. Url: ");
                r.append(url.as_str());
                r
            },
            GenerateBlocksError::FailedToParseTheResponse { url, response } => {
                let mut r = String::from_str("Cannot parse the received generate blocks response: ");
                r.append(response.as_str());
                r.append(", url: ");
                r.append(url.as_str());
                r
            },
            GenerateBlocksError::ResponseCodeIsNotSuccessful { url, code } => {
                let mut r = String::from_str("Generate blocks response's code is not successful: ");
                r.append(code.as_str());
                r.append(", url: ");
                r.append(url.as_str());
                r
            },
        }
    }
}

/// The description of `e`.
pub open spec fn initial_wallets_error_text(e: InitialWalletsError) -> Seq<char> {
    match e {
        InitialWalletsError::CannotSendRequest { url } => "Cannot send the initial wallets request. Url: "@ + url@,
        InitialWalletsError::ResponseStatusIsNotSuccessful { url, status } => "Initial wallets response's status is not successful: "@ + decimal(status as nat) + ", url: "@ + url@,
        InitialWalletsError::CannotGetTextFromTheResponse { url } => "No text received in the initial wallets response. Url: "@ + url@,
        InitialWalletsError::FailedToParseTheResponse { url, response } => "Cannot parse the received initial wallets response: "@ + response@ + ", url: "@ + url@,
        InitialWalletsError::ResponseCodeIsNotSuccessful { url, code } => "Initial wallets response's code is not successful: "@ + code@ + ", url: "@ + url@,
        InitialWalletsError::ResponseDataIsMissing { url } => "Initial wallets response holds no data. Url: "@ + url@,
    }
}

impl InitialWalletsError {
    /// Describes this error in one sentence.
    pub fn message(&self) -> (r: String)
        ensures
            r@ == initial_wallets_error_text(*self),
    {
        match self {
            InitialWalletsError::CannotSendRequest { url } => {
                let mut r = String::from_str("Cannot send the initial wallets request. Url: ");
                r.append(url.as_str());
                r
            },
            InitialWalletsError::ResponseStatusIsNotSuccessful { url, status } => {
                let mut r = String::from_str("Initial wallets response's status is not successful: ");
                let n = decimal_string(*status as u64);
                r.append(n.as_str());
                r.append(", url: ");
                r.append(url.as_str());
                r
            },
            InitialWalletsError::CannotGetTextFromTheResponse { url } => {
                let mut r = String::from_str("No text received in the initial wallets response. Url: ");
                r.append(url.as_str());
                r
            },
            InitialWalletsError::FailedToParseTheResponse { url, response } => {
                let mut r = String::from_str("Cannot parse the received initial wallets response: ");
                r.append(response.as_str());
                r.append(", url: ");
                r.append(url.as_str());
                r
            },
            InitialWalletsError::ResponseCodeIsNotSuccessful { url, code } => {
                let mut r = String::from_str("Initial wallets response's code is not successful: ");
                r.append(code.as_str());
                r.append(", url: ");
                r.append(url.as_str());
                r
            },
            InitialWalletsError::ResponseDataIsMissing { url } => {
                let mut r = String::from_str("Initial wallets response holds no data. Url: ");
                r.append(url.as_str());
                r
            },
        }
    }
}

/// The description of `e`.
pub open spec fn set_address_keys_error_text(e: SetAddressKeysError) -> Seq<char> {
    match e {
        SetAddressKeysError::CannotSendRequest { url } => "Cannot send the set address keys request. Url: "@ + url@,
        SetAddressKeysError::ResponseStatusIsNotSuccessful { url, status } => "Set address keys response's status is not successful: "@ + decimal(status as nat) + ", url: "@ + url@,
        SetAddressKeysError::CannotGetTextFromTheResponse { url } => "No text received in the set address keys response. Url: "@ + url@,
        SetAddressKeysError::FailedToParseTheResponse { url, response } => "Cannot parse the received set address keys response: "@ + response@ + ", url: "@ + url@,
        SetAddressKeysError::ResponseCodeIsNotSuccessful { url, code } => "Set address keys response's code is not successful: "@ + code@ + ", url: "@ + url@,
    }
}

impl SetAddressKeysError {
    /// Describes this error in one sentence.
    pub fn message(&self) -> (r: String)
        ensures
            r@ == set_address_keys_error_text(*self),
    {
        match self {
            SetAddressKeysError::CannotSendRequest { url } => {
                let mut r = String::from_str("Cannot send the set address keys request. Url: ");
                r.append(url.as_str());
                r
            },
            SetAddressKeysError::ResponseStatusIsNotSuccessful { url, status } => {
                let mut r = String::from_str("Set address keys response's status is not successful: ");
                let n = decimal_string(*status as u64);
                r.append(n.as_str());
                r.append(", url: ");
                r.append(url.as_str());
                r
            },
            SetAddressKeysError::CannotGetTextFromTheResponse { url } => {
                let mut r = String::from_str("No text received in the set address keys response. Url: ");
                r.append(url.as_str());
                r
            },
            SetAddressKeysError::FailedToParseTheResponse { url, response } => {
                let mut r = String::from_str("Cannot parse the received set address keys response: ");
                r.append(response.as_str());
                r.append(", url: ");
                r.append(url.as_str());
                r
            },
            SetAddressKeysError::ResponseCodeIsNotSuccessful { url, code } => {
                let mut r = String::from_str("Set address keys response's code is not successful: ");
                r.append(code.as_str());
                r.append(", url: ");
                r.append(url.as_str());
                r
            },
        }
    }
}

/// The description of `e`.
pub open spec fn set_state_error_text(e: SetStateError) -> Seq<char> {
    match e {
        SetStateError::CannotSendRequest { url } => "Cannot send the set state request. Url: "@ + url@,
        SetStateError::ResponseStatusIsNotSuccessful { url, status } => "Set state response's status is not successful: "@ + decimal(status as nat) + ", url: "@ + url@,
        SetStateError::CannotGetTextFromTheResponse { url } => "No text received in the set state response. Url: "@ + url@,
        SetStateError::FailedToParseTheResponse { url, response } => "Cannot parse the received set state response: "@ + response@ + ", url: "@ + url@,
        SetStateError::ResponseCodeIsNotSuccessful { url, code } => "Set state response's code is not successful: "@ + code@ + ", url: "@ + url@,
    }
}

impl SetStateError {
    /// Describes this error in one sentence.
    pub fn message(&self) -> (r: String)
        ensures
            r@ == set_state_error_text(*self),
    {
        match self {
            SetStateError::CannotSendRequest { url } => {
                let mut r = String::from_str("Cannot send the set state request. Url: ");
                r.append(url.as_str());
                r
            },
            SetStateError::ResponseStatusIsNotSuccessful { url, status } => {
                let mut r = String::from_str("Set state response's status is not successful: ");
                let n = decimal_string(*status as u64);
                r.append(n.as_str());
                r.append(", url: ");
                r.append(url.as_str());
                r
            },
            SetStateError::CannotGetTextFromTheResponse { url } => {
                let mut r = String::from_str("No text received in the set state response. Url: ");
                r.append(url.as_str());
                r
            },
            SetStateError::FailedToParseTheResponse { url, response } => {
                let mut r = String::from_str("Cannot parse the received set state response: ");
                r.append(response.as_str());
                r.append(", url: ");
                r.append(url.as_str());
                r
            },
            SetStateError::ResponseCodeIsNotSuccessful { url, code } => {
                let mut r = String::from_str("Set state response's code is not successful: ");
                r.append(code.as_str());
                r.append(", url: ");
                r.append(url.as_str());
                r
            },
        }
    }
}

/// The description of `e`.
pub open spec fn simulator_error_text(e: SimulatorError) -> Seq<char> {
    match e {
        SimulatorError::CannotKillProcess => "Cannot kill the simulator's process."@,
        SimulatorError::ProcessNotStarted => "Simulator is not started. Please start it using the .start() method."@,
        SimulatorError::StdoutAlreadyConsumed => "Simulator's stdout has been already used."@,
        SimulatorError::ProcessAlreadyFinished => "Simulator already ended."@,
        SimulatorError::ProcessExitedWithErrorCode { code, signal } => match (code, signal) {
            (Some(c), _) => "Simulator exited with error code "@ + signed_decimal(c as int) + "."@,
            (None, Some(s)) => "Simulator was terminated by signal "@ + signed_decimal(s as int) + "."@,
            (None, None) => "Simulator exited without error code."@,
        },
        SimulatorError::CannotConvertConfigToTOML => "Cannot convert config to TOML."@,
        SimulatorError::TimedOutWhileWaitingToBeReady => "Simulator did not become ready in time."@,
        SimulatorError::BlockCountOverflow { num_epochs } => "Cannot generate "@ + decimal(
            num_epochs as nat,
        ) + " epochs: their block count does not fit in 64 bits."@,
    }
}

impl SimulatorError {
    /// Describes this error in one sentence.
    pub fn message(&self) -> (r: String)
        ensures
            r@ == simulator_error_text(*self),
    {
        match self {
            SimulatorError::CannotKillProcess => String::from_str("Cannot kill the simulator's process."),
            SimulatorError::ProcessNotStarted => String::from_str(
                "Simulator is not started. Please start it using the .start() method.",
            ),
            SimulatorError::StdoutAlreadyConsumed => String::from_str(
                "Simulator's stdout has been already used.",
            ),
            SimulatorError::ProcessAlreadyFinished => String::from_str("Simulator already ended."),
            SimulatorError::ProcessExitedWithErrorCode { code, signal } => match (code, signal) {
                (Some(c), _) => {
                    let mut r = String::from_str("Simulator exited with error code ");
                    let n = signed_decimal_string(*c);
                    r.append(n.as_str());
                    r.append(".");
                    r
                },
                (None, Some(s)) => {
                    let mut r = String::from_str("Simulator was terminated by signal ");
                    let n = signed_decimal_string(*s);
                    r.append(n.as_str());
                    r.append(".");
                    r
                },
                (None, None) => String::from_str("Simulator exited without error code."),
            },
            SimulatorError::CannotConvertConfigToTOML => String::from_str(
                "Cannot convert config to TOML.",
            ),
            SimulatorError::TimedOutWhileWaitingToBeReady => String::from_str(
                "Simulator did not become ready in time.",
            ),
            SimulatorError::BlockCountOverflow { num_epochs } => {
                let mut r = String::from_str("Cannot generate ");
                let n = decimal_string(*num_epochs);
                r.append(n.as_str());
                r.append(" epochs: their block count does not fit in 64 bits.");
                r
            },
        }
    }
}

/// The description of `e`: that of the error it wraps.
pub open spec fn lib_error_text(e: LibError) -> Seq<char> {
    match e {
        LibError::Fs(e) => fs_error_text(e),
        LibError::Process(e) => process_error_text(e),
        LibError::Simulator(e) => simulator_error_text(e),
        LibError::InitialWallets(e) => initial_wallets_error_text(e),
        LibError::GenerateBlocks(e) => generate_blocks_error_text(e),
        LibError::SetAddressKeys(e) => set_address_keys_error_text(e),
        LibError::SetState(e) => set_state_error_text(e),
    }
}

impl LibError {
    /// Describes this error in one sentence.
    pub fn message(&self) -> (r: String)
        ensures
            r@ == lib_error_text(*self),
    {
        match self {
            LibError::Fs(e) => e.message(),
            LibError::Process(e) => e.message(),
            LibError::Simulator(e) => e.message(),
            LibError::InitialWallets(e) => e.message(),
            LibError::GenerateBlocks(e) => e.message(),
            LibError::SetAddressKeys(e) => e.message(),
            LibError::SetState(e) => e.message(),
        }
    }
}

} // verus!
