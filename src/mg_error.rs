//! The catalog of errors that the host's memory manager reports.
use vstd::prelude::*;

use crate::status::LVStatusCode;

verus! {

/// The errors that the host's memory manager reports, each with its fixed
/// numeric code and text.
#[derive(Debug, Clone, Copy, PartialEq, Eq, Structural)]
pub enum MgError {
    MgArgErr,
    MFullErr,
    FEof,
    FIsOpen,
    FIoErr,
    FNotFound,
    FNoPerm,
    FDiskFull,
    FDupPath,
    FtMFOpen,
    FNotEnabled,
    RfNotFound,
    RAddFailed,
    RNotFound,
    INotFound,
    IMemoryErr,
    DPenNotExist,
    CfgBadType,
    CfgTokenNotFound,
    CfgParseError,
    CfgAllocError,
    EcLVSBFormatError,
    EcLVSBSubrError,
    EcLVSBNoCodeError,
    WNullWindow,
    WDestroyMixup,
    MenuNullMenu,
    PAbortJob,
    PBadPrintRecord,
    PDriverError,
    PWindowsError,
    PMemoryError,
    PDialogError,
    PMiscError,
    DvInvalidRefnum,
    DvDeviceNotFound,
    DvParamErr,
    DvUnitErr,
    DvOpenErr,
    DvAbortErr,
    BogusError,
    CancelError,
    OMObjLowErr,
    OMObjHiErr,
    OMObjNotInHeapErr,
    OMOHeapNotKnownErr,
    OMBadDPIdErr,
    OMNoDPinTabErr,
    OMMsgOutOfRangeErr,
    OMMethodNullErr,
    OMUnknownMsgErr,
    MgNotSupported,
    NcBadAddressErr,
    NcInProgress,
    NcTimeOutErr,
    NcBusyErr,
    NcNotSupportedErr,
    NcNetErr,
    NcAddrInUseErr,
    NcSysOutOfMem,
    NcSysConnAbortedErr,
    NcConnRefusedErr,
    NcNotConnectedErr,
    NcAlreadyConnectedErr,
    NcConnClosedErr,
    AmInitErr,
    OccBadOccurrenceErr,
    OccWaitOnUnBoundHdlrErr,
    OccFunnyQOverFlowErr,
    FDataLogTypeConflict,
    EcLVSBCannotBeCalledFromThread,
    AmUnrecognizedType,
    MCorruptErr,
    EcLVSBErrorMakingTempDLL,
    EcLVSBOldCIN,
    FmtTypeMismatch,
    FmtUnknownConversion,
    FmtTooFew,
    FmtTooMany,
    FmtScanError,
    LvOLEConvertErr,
    RtMenuErr,
    PwdTampered,
    LvVariantAttrNotFound,
    LvVariantTypeMismatch,
    AxEventDataNotAvailable,
    AxEventStoreNotPresent,
    AxOccurrenceNotFound,
    AxEventQueueNotCreated,
    AxEventInfoNotAvailable,
    OleNullRefnumPassed,
    IviInvalidDowncast,
    IviInvalidClassSesn,
    NcSockNotMulticast,
    NcSockNotSinglecast,
    NcBadMulticastAddr,
    NcMcastSockReadOnly,
    NcMcastSockWriteOnly,
    NcDatagramMsgSzErr,
    DataCorruptErr,
    RequireFullPathErr,
    FolderNotExistErr,
    NcBtInvalidModeErr,
    NcBtSetModeErr,
    MgBtInvalidGUIDStrErr,
    RVersInFuture,
}

impl MgError {
    /// The host's numeric code of this error.
    pub open spec fn spec_code(self) -> i32 {
        match self {
            MgError::MgArgErr => 1,
            MgError::MFullErr => 2,
            MgError::FEof => 4,
            MgError::FIsOpen => 5,
            MgError::FIoErr => 6,
            MgError::FNotFound => 7,
            MgError::FNoPerm => 8,
            MgError::FDiskFull => 9,
            MgError::FDupPath => 10,
            MgError::FtMFOpen => 11,
            MgError::FNotEnabled => 12,
            MgError::RfNotFound => 13,
            MgError::RAddFailed => 14,
            MgError::RNotFound => 15,
            MgError::INotFound => 16,
            MgError::IMemoryErr => 17,
            MgError::DPenNotExist => 18,
            MgError::CfgBadType => 19,
            MgError::CfgTokenNotFound => 20,
            MgError::CfgParseError => 21,
            MgError::CfgAllocError => 22,
            MgError::EcLVSBFormatError => 23,
            MgError::EcLVSBSubrError => 24,
            MgError::EcLVSBNoCodeError => 25,
            MgError::WNullWindow => 26,
            MgError::WDestroyMixup => 27,
            MgError::MenuNullMenu => 28,
            MgError::PAbortJob => 29,
            MgError::PBadPrintRecord => 30,
            MgError::PDriverError => 31,
            MgError::PWindowsError => 32,
            MgError::PMemoryError => 33,
            MgError::PDialogError => 34,
            MgError::PMiscError => 35,
            MgError::DvInvalidRefnum => 36,
            MgError::DvDeviceNotFound => 37,
            MgError::DvParamErr => 38,
            MgError::DvUnitErr => 39,
            MgError::DvOpenErr => 40,
            MgError::DvAbortErr => 41,
            MgError::BogusError => 42,
            MgError::CancelError => 43,
            MgError::OMObjLowErr => 44,
            MgError::OMObjHiErr => 45,
            MgError::OMObjNotInHeapErr => 46,
            MgError::OMOHeapNotKnownErr => 47,
            MgError::OMBadDPIdErr => 48,
            MgError::OMNoDPinTabErr => 49,
            MgError::OMMsgOutOfRangeErr => 50,
            MgError::OMMethodNullErr => 51,
            MgError::OMUnknownMsgErr => 52,
            MgError::MgNotSupported => 53,
            MgError::NcBadAddressErr => 54,
            MgError::NcInProgress => 55,
            MgError::NcTimeOutErr => 56,
            MgError::NcBusyErr => 57,
            MgError::NcNotSupportedErr => 58,
            MgError::NcNetErr => 59,
            MgError::NcAddrInUseErr => 60,
            MgError::NcSysOutOfMem => 61,
            MgError::NcSysConnAbortedErr => 62,
            MgError::NcConnRefusedErr => 63,
            MgError::NcNotConnectedErr => 64,
            MgError::NcAlreadyConnectedErr => 65,
            MgError::NcConnClosedErr => 66,
            MgError::AmInitErr => 67,
            MgError::OccBadOccurrenceErr => 68,
            MgError::OccWaitOnUnBoundHdlrErr => 69,
            MgError::OccFunnyQOverFlowErr => 70,
            MgError::FDataLogTypeConflict => 71,
            MgError::EcLVSBCannotBeCalledFromThread => 72,
            MgError::AmUnrecognizedType => 73,
            MgError::MCorruptErr => 74,
            MgError::EcLVSBErrorMakingTempDLL => 75,
            MgError::EcLVSBOldCIN => 76,
            MgError::FmtTypeMismatch => 81,
            MgError::FmtUnknownConversion => 82,
            MgError::FmtTooFew => 83,
            MgError::FmtTooMany => 84,
            MgError::FmtScanError => 85,
            MgError::LvOLEConvertErr => 87,
            MgError::RtMenuErr => 88,
            MgError::PwdTampered => 89,
            MgError::LvVariantAttrNotFound => 90,
            MgError::LvVariantTypeMismatch => 91,
            MgError::AxEventDataNotAvailable => 92,
            MgError::AxEventStoreNotPresent => 93,
            MgError::AxOccurrenceNotFound => 94,
            MgError::AxEventQueueNotCreated => 95,
            MgError::AxEventInfoNotAvailable => 96,
            MgError::OleNullRefnumPassed => 97,
            MgError::IviInvalidDowncast => 102,
            MgError::IviInvalidClassSesn => 103,
            MgError::NcSockNotMulticast => 108,
            MgError::NcSockNotSinglecast => 109,
            MgError::NcBadMulticastAddr => 110,
            MgError::NcMcastSockReadOnly => 111,
            MgError::NcMcastSockWriteOnly => 112,
            MgError::NcDatagramMsgSzErr => 113,
            MgError::DataCorruptErr => 116,
            MgError::RequireFullPathErr => 117,
            MgError::FolderNotExistErr => 118,
            MgError::NcBtInvalidModeErr => 119,
            MgError::NcBtSetModeErr => 120,
            MgError::MgBtInvalidGUIDStrErr => 121,
            MgError::RVersInFuture => 122,
        }
    }

    /// The error whose code is `code`, if the catalog holds one.
    pub open spec fn spec_from_code(code: i32) -> Option<MgError> {
        match code {
            1 => Some(MgError::MgArgErr),
            2 => Some(MgError::MFullErr),
            4 => Some(MgError::FEof),
            5 => Some(MgError::FIsOpen),
            6 => Some(MgError::FIoErr),
            7 => Some(MgError::FNotFound),
            8 => Some(MgError::FNoPerm),
            9 => Some(MgError::FDiskFull),
            10 => Some(MgError::FDupPath),
            11 => Some(MgError::FtMFOpen),
            12 => Some(MgError::FNotEnabled),
            13 => Some(MgError::RfNotFound),
            14 => Some(MgError::RAddFailed),
            15 => Some(MgError::RNotFound),
            16 => Some(MgError::INotFound),
            17 => Some(MgError::IMemoryErr),
            18 => Some(MgError::DPenNotExist),
            19 => Some(MgError::CfgBadType),
            20 => Some(MgError::CfgTokenNotFound),
            21 => Some(MgError::CfgParseError),
            22 => Some(MgError::CfgAllocError),
            23 => Some(MgError::EcLVSBFormatError),
            24 => Some(MgError::EcLVSBSubrError),
            25 => Some(MgError::EcLVSBNoCodeError),
            26 => Some(MgError::WNullWindow),
            27 => Some(MgError::WDestroyMixup),
            28 => Some(MgError::MenuNullMenu),
            29 => Some(MgError::PAbortJob),
            30 => Some(MgError::PBadPrintRecord),
            31 => Some(MgError::PDriverError),
            32 => Some(MgError::PWindowsError),
            33 => Some(MgError::PMemoryError),
            34 => Some(MgError::PDialogError),
            35 => Some(MgError::PMiscError),
            36 => Some(MgError::DvInvalidRefnum),
            37 => Some(MgError::DvDeviceNotFound),
            38 => Some(MgError::DvParamErr),
            39 => Some(MgError::DvUnitErr),
            40 => Some(MgError::DvOpenErr),
            41 => Some(MgError::DvAbortErr),
            42 => Some(MgError::BogusError),
            43 => Some(MgError::CancelError),
            44 => Some(MgError::OMObjLowErr),
            45 => Some(MgError::OMObjHiErr),
            46 => Some(MgError::OMObjNotInHeapErr),
            47 => Some(MgError::OMOHeapNotKnownErr),
            48 => Some(MgError::OMBadDPIdErr),
            49 => Some(MgError::OMNoDPinTabErr),
            50 => Some(MgError::OMMsgOutOfRangeErr),
            51 => Some(MgError::OMMethodNullErr),
            52 => Some(MgError::OMUnknownMsgErr),
            53 => Some(MgError::MgNotSupported),
            54 => Some(MgError::NcBadAddressErr),
            55 => Some(MgError::NcInProgress),
            56 => Some(MgError::NcTimeOutErr),
            57 => Some(MgError::NcBusyErr),
            58 => Some(MgError::NcNotSupportedErr),
            59 => Some(MgError::NcNetErr),
            60 => Some(MgError::NcAddrInUseErr),
            61 => Some(MgError::NcSysOutOfMem),
            62 => Some(MgError::NcSysConnAbortedErr),
            63 => Some(MgError::NcConnRefusedErr),
            64 => Some(MgError::NcNotConnectedErr),
            65 => Some(MgError::NcAlreadyConnectedErr),
            66 => Some(MgError::NcConnClosedErr),
            67 => Some(MgError::AmInitErr),
            68 => Some(MgError::OccBadOccurrenceErr),
            69 => Some(MgError::OccWaitOnUnBoundHdlrErr),
            70 => Some(MgError::OccFunnyQOverFlowErr),
            71 => Some(MgError::FDataLogTypeConflict),
            72 => Some(MgError::EcLVSBCannotBeCalledFromThread),
            73 => Some(MgError::AmUnrecognizedType),
            74 => Some(MgError::MCorruptErr),
            75 => Some(MgError::EcLVSBErrorMakingTempDLL),
            76 => Some(MgError::EcLVSBOldCIN),
            81 => Some(MgError::FmtTypeMismatch),
            82 => Some(MgError::FmtUnknownConversion),
            83 => Some(MgError::FmtTooFew),
            84 => Some(MgError::FmtTooMany),
            85 => Some(MgError::FmtScanError),
            87 => Some(MgError::LvOLEConvertErr),
            88 => Some(MgError::RtMenuErr),
            89 => Some(MgError::PwdTampered),
            90 => Some(MgError::LvVariantAttrNotFound),
            91 => Some(MgError::LvVariantTypeMismatch),
            92 => Some(MgError::AxEventDataNotAvailable),
            93 => Some(MgError::AxEventStoreNotPresent),
            94 => Some(MgError::AxOccurrenceNotFound),
            95 => Some(MgError::AxEventQueueNotCreated),
            96 => Some(MgError::AxEventInfoNotAvailable),
            97 => Some(MgError::OleNullRefnumPassed),
            102 => Some(MgError::IviInvalidDowncast),
            103 => Some(MgError::IviInvalidClassSesn),
            108 => Some(MgError::NcSockNotMulticast),
            109 => Some(MgError::NcSockNotSinglecast),
            110 => Some(MgError::NcBadMulticastAddr),
            111 => Some(MgError::NcMcastSockReadOnly),
            112 => Some(MgError::NcMcastSockWriteOnly),
            113 => Some(MgError::NcDatagramMsgSzErr),
            116 => Some(MgError::DataCorruptErr),
            117 => Some(MgError::RequireFullPathErr),
            118 => Some(MgError::FolderNotExistErr),
            119 => Some(MgError::NcBtInvalidModeErr),
            120 => Some(MgError::NcBtSetModeErr),
            121 => Some(MgError::MgBtInvalidGUIDStrErr),
            122 => Some(MgError::RVersInFuture),
            _ => None,
        }
    }

    /// The host's text for this error.
    pub open spec fn spec_description(self) -> Seq<char> {
        match self {
            MgError::MgArgErr => "An input parameter is invalid."@,
            MgError::MFullErr => "Memory is full."@,
            MgError::FEof => "End of file encountered."@,
            MgError::FIsOpen => "File already open"@,
            MgError::FIoErr => "Generic file I/O error."@,
            MgError::FNotFound => "File not found"@,
            MgError::FNoPerm => "File permission error."@,
            MgError::FDiskFull => "Disk full"@,
            MgError::FDupPath => "Duplicate path"@,
            MgError::FtMFOpen => "Too many files open."@,
            MgError::FNotEnabled => "Some system capacity necessary for operation is not enabled."@,
            MgError::RfNotFound => "Failed to load dynamic library because of missing external symbols or dependencies, or because of an invalid file format."@,
            MgError::RAddFailed => "Cannot add resource."@,
            MgError::RNotFound => "Resource not found."@,
            MgError::INotFound => "Image not found."@,
            MgError::IMemoryErr => "Not enough memory to manipulate image."@,
            MgError::DPenNotExist => "DPen does not exist."@,
            MgError::CfgBadType => "Configuration type invalid."@,
            MgError::CfgTokenNotFound => "Configuration token not found."@,
            MgError::CfgParseError => "Error occurred parsing configuration string."@,
            MgError::CfgAllocError => "Configuration memory error."@,
            MgError::EcLVSBFormatError => "Bad external code format."@,
            MgError::EcLVSBSubrError => "External subroutine not supported."@,
            MgError::EcLVSBNoCodeError => "External code not present."@,
            MgError::WNullWindow => "Null window."@,
            MgError::WDestroyMixup => "Destroy window error."@,
            MgError::MenuNullMenu => "Null menu."@,
            MgError::PAbortJob => "Print aborted"@,
            MgError::PBadPrintRecord => "Bad print record."@,
            MgError::PDriverError => "Print driver error."@,
            MgError::PWindowsError => "Operating system error during print."@,
            MgError::PMemoryError => "Memory error during print."@,
            MgError::PDialogError => "Print dialog error."@,
            MgError::PMiscError => "Generic print error."@,
            MgError::DvInvalidRefnum => "Invalid device refnum."@,
            MgError::DvDeviceNotFound => "Device not found."@,
            MgError::DvParamErr => "Device parameter error."@,
            MgError::DvUnitErr => "Device unit error."@,
            MgError::DvOpenErr => "Cannot open device."@,
            MgError::DvAbortErr => "Device call aborted."@,
            MgError::BogusError => "Generic error."@,
            MgError::CancelError => "Operation cancelled by user."@,
            MgError::OMObjLowErr => "Object ID too low."@,
            MgError::OMObjHiErr => "Object ID too high."@,
            MgError::OMObjNotInHeapErr => "Object not in heap."@,
            MgError::OMOHeapNotKnownErr => "Unknown heap."@,
            MgError::OMBadDPIdErr => "Unknown object (invalid DefProc)."@,
            MgError::OMNoDPinTabErr => "Unknown object (DefProc not in table)."@,
            MgError::OMMsgOutOfRangeErr => "Message out of range."@,
            MgError::OMMethodNullErr => "Null method."@,
            MgError::OMUnknownMsgErr => "Unknown message."@,
            MgError::MgNotSupported => "Manager call not supported."@,
            MgError::NcBadAddressErr => "The network address is ill-formed."@,
            MgError::NcInProgress => "The network operation is in progress."@,
            MgError::NcTimeOutErr => "The network operation exceeded the user-specified or system time limit."@,
            MgError::NcBusyErr => "The network connection is busy."@,
            MgError::NcNotSupportedErr => "The network function is not supported by the system."@,
            MgError::NcNetErr => "The network is down, unreachable, or has been reset."@,
            MgError::NcAddrInUseErr => "The specified port or network address is currently in use. Select an available port or network address."@,
            MgError::NcSysOutOfMem => "The system could not allocate the necessary memory."@,
            MgError::NcSysConnAbortedErr => "The system caused the network connection to be aborted."@,
            MgError::NcConnRefusedErr => "The network connection was refused by the server."@,
            MgError::NcNotConnectedErr => "The network connection is not yet established."@,
            MgError::NcAlreadyConnectedErr => "The network connection is already established."@,
            MgError::NcConnClosedErr => "The network connection was closed by the peer."@,
            MgError::AmInitErr => "Interapplication Manager initialization error."@,
            MgError::OccBadOccurrenceErr => "Bad occurrence."@,
            MgError::OccWaitOnUnBoundHdlrErr => "Handler does not know what occurrence to wait for."@,
            MgError::OccFunnyQOverFlowErr => "Occurrence queue overflow."@,
            MgError::FDataLogTypeConflict => "File datalog type conflict."@,
            MgError::EcLVSBCannotBeCalledFromThread => "Semaphore not signaled."@,
            MgError::AmUnrecognizedType => "Interapplication Manager unrecognized type error."@,
            MgError::MCorruptErr => "Memory or data structure corrupt."@,
            MgError::EcLVSBErrorMakingTempDLL => "Failed to make temporary DLL."@,
            MgError::EcLVSBOldCIN => "Old CIN version."@,
            MgError::FmtTypeMismatch => "Format specifier type mismatch."@,
            MgError::FmtUnknownConversion => "Unknown format specifier."@,
            MgError::FmtTooFew => "Too few format specifiers."@,
            MgError::FmtTooMany => "Too many format specifiers."@,
            MgError::FmtScanError => "Scan failed. The input string does not contain data in the expected format."@,
            MgError::LvOLEConvertErr => "Error converting to variant."@,
            MgError::RtMenuErr => "Run-time menu error."@,
            MgError::PwdTampered => "Another user tampered with the VI password."@,
            MgError::LvVariantAttrNotFound => "Variant attribute not found."@,
            MgError::LvVariantTypeMismatch => "The data type of the variant is not compatible with the data type wired to the type input."@,
            MgError::AxEventDataNotAvailable => "The ActiveX event data was not available on the queue."@,
            MgError::AxEventStoreNotPresent => "ActiveX event information was not available."@,
            MgError::AxOccurrenceNotFound => "The occurrence associated with the ActiveX event was not found."@,
            MgError::AxEventQueueNotCreated => "The ActiveX event queue could not be created."@,
            MgError::AxEventInfoNotAvailable => "ActiveX event information was not available in the type library."@,
            MgError::OleNullRefnumPassed => "A null or previously deleted refnum was passed in as an input."@,
            MgError::IviInvalidDowncast => "IVI invalid downcast."@,
            MgError::IviInvalidClassSesn => "No IVI class session opened."@,
            MgError::NcSockNotMulticast => "Singlecast connections cannot send to multicast addresses."@,
            MgError::NcSockNotSinglecast => "Multicast connections cannot send to singlecast addresses."@,
            MgError::NcBadMulticastAddr => "Specified IP address is not in multicast address range."@,
            MgError::NcMcastSockReadOnly => "Cannot write to read-only multicast connection."@,
            MgError::NcMcastSockWriteOnly => "Cannot read from write-only multicast connection."@,
            MgError::NcDatagramMsgSzErr => "A message sent on a datagram socket was larger than the internal message buffer or some other network limit, or the buffer used to receive a datagram was smaller than the datagram itself."@,
            MgError::DataCorruptErr => "Unflatten or byte stream read operation failed due to corrupt, unexpected, or truncated data."@,
            MgError::RequireFullPathErr => "Directory path supplied where a file path is required. A file path with the filename is required, but the supplied path is a path to a directory."@,
            MgError::FolderNotExistErr => "The supplied folder path does not exist."@,
            MgError::NcBtInvalidModeErr => "Illegal combination of Bluetooth discoverable and non-connectable modes."@,
            MgError::NcBtSetModeErr => "Error setting Bluetooth mode."@,
            MgError::MgBtInvalidGUIDStrErr => "Invalid GUID string."@,
            MgError::RVersInFuture => "The resource you are attempting to open was created in a more recent version of LabVIEW and is incompatible with this version."@,
        }
    }

    /// The host's numeric code of this error.
    pub fn code(&self) -> (r: i32)
        ensures
            r == self.spec_code(),
    {
        match self {
            MgError::MgArgErr => 1,
            MgError::MFullErr => 2,
            MgError::FEof => 4,
            MgError::FIsOpen => 5,
            MgError::FIoErr => 6,
            MgError::FNotFound => 7,
            MgError::FNoPerm => 8,
            MgError::FDiskFull => 9,
            MgError::FDupPath => 10,
            MgError::FtMFOpen => 11,
            MgError::FNotEnabled => 12,
            MgError::RfNotFound => 13,
            MgError::RAddFailed => 14,
            MgError::RNotFound => 15,
            MgError::INotFound => 16,
            MgError::IMemoryErr => 17,
            MgError::DPenNotExist => 18,
            MgError::CfgBadType => 19,
            MgError::CfgTokenNotFound => 20,
            MgError::CfgParseError => 21,
            MgError::CfgAllocError => 22,
            MgError::EcLVSBFormatError => 23,
            MgError::EcLVSBSubrError => 24,
            MgError::EcLVSBNoCodeError => 25,
            MgError::WNullWindow => 26,
            MgError::WDestroyMixup => 27,
            MgError::MenuNullMenu => 28,
            MgError::PAbortJob => 29,
            MgError::PBadPrintRecord => 30,
            MgError::PDriverError => 31,
            MgError::PWindowsError => 32,
            MgError::PMemoryError => 33,
            MgError::PDialogError => 34,
            MgError::PMiscError => 35,
            MgError::DvInvalidRefnum => 36,
            MgError::DvDeviceNotFound => 37,
            MgError::DvParamErr => 38,
            MgError::DvUnitErr => 39,
            MgError::DvOpenErr => 40,
            MgError::DvAbortErr => 41,
            MgError::BogusError => 42,
            MgError::CancelError => 43,
            MgError::OMObjLowErr => 44,
            MgError::OMObjHiErr => 45,
            MgError::OMObjNotInHeapErr => 46,
            MgError::OMOHeapNotKnownErr => 47,
            MgError::OMBadDPIdErr => 48,
            MgError::OMNoDPinTabErr => 49,
            MgError::OMMsgOutOfRangeErr => 50,
            MgError::OMMethodNullErr => 51,
            MgError::OMUnknownMsgErr => 52,
            MgError::MgNotSupported => 53,
            MgError::NcBadAddressErr => 54,
            MgError::NcInProgress => 55,
            MgError::NcTimeOutErr => 56,
            MgError::NcBusyErr => 57,
            MgError::NcNotSupportedErr => 58,
            MgError::NcNetErr => 59,
            MgError::NcAddrInUseErr => 60,
            MgError::NcSysOutOfMem => 61,
            MgError::NcSysConnAbortedErr => 62,
            MgError::NcConnRefusedErr => 63,
            MgError::NcNotConnectedErr => 64,
            MgError::NcAlreadyConnectedErr => 65,
            MgError::NcConnClosedErr => 66,
            MgError::AmInitErr => 67,
            MgError::OccBadOccurrenceErr => 68,
            MgError::OccWaitOnUnBoundHdlrErr => 69,
            MgError::OccFunnyQOverFlowErr => 70,
            MgError::FDataLogTypeConflict => 71,
            MgError::EcLVSBCannotBeCalledFromThread => 72,
            MgError::AmUnrecognizedType => 73,
            MgError::MCorruptErr => 74,
            MgError::EcLVSBErrorMakingTempDLL => 75,
            MgError::EcLVSBOldCIN => 76,
            MgError::FmtTypeMismatch => 81,
            MgError::FmtUnknownConversion => 82,
            MgError::FmtTooFew => 83,
            MgError::FmtTooMany => 84,
            MgError::FmtScanError => 85,
            MgError::LvOLEConvertErr => 87,
            MgError::RtMenuErr => 88,
            MgError::PwdTampered => 89,
            MgError::LvVariantAttrNotFound => 90,
            MgError::LvVariantTypeMismatch => 91,
            MgError::AxEventDataNotAvailable => 92,
            MgError::AxEventStoreNotPresent => 93,
            MgError::AxOccurrenceNotFound => 94,
            MgError::AxEventQueueNotCreated => 95,
            MgError::AxEventInfoNotAvailable => 96,
            MgError::OleNullRefnumPassed => 97,
            MgError::IviInvalidDowncast => 102,
            MgError::IviInvalidClassSesn => 103,
            MgError::NcSockNotMulticast => 108,
            MgError::NcSockNotSinglecast => 109,
            MgError::NcBadMulticastAddr => 110,
            MgError::NcMcastSockReadOnly => 111,
            MgError::NcMcastSockWriteOnly => 112,
            MgError::NcDatagramMsgSzErr => 113,
            MgError::DataCorruptErr => 116,
            MgError::RequireFullPathErr => 117,
            MgError::FolderNotExistErr => 118,
            MgError::NcBtInvalidModeErr => 119,
            MgError::NcBtSetModeErr => 120,
            MgError::MgBtInvalidGUIDStrErr => 121,
            MgError::RVersInFuture => 122,
        }
    }

    /// The error of the catalog whose code is `code`, or `None` where the
    /// catalog has no such code.
    pub fn from_code(code: i32) -> (r: Option<MgError>)
        ensures
            r == MgError::spec_from_code(code),
    {
        match code {
            1 => Some(MgError::MgArgErr),
            2 => Some(MgError::MFullErr),
            4 => Some(MgError::FEof),
            5 => Some(MgError::FIsOpen),
            6 => Some(MgError::FIoErr),
            7 => Some(MgError::FNotFound),
            8 => Some(MgError::FNoPerm),
            9 => Some(MgError::FDiskFull),
            10 => Some(MgError::FDupPath),
            11 => Some(MgError::FtMFOpen),
            12 => Some(MgError::FNotEnabled),
            13 => Some(MgError::RfNotFound),
            14 => Some(MgError::RAddFailed),
            15 => Some(MgError::RNotFound),
            16 => Some(MgError::INotFound),
            17 => Some(MgError::IMemoryErr),
            18 => Some(MgError::DPenNotExist),
            19 => Some(MgError::CfgBadType),
            20 => Some(MgError::CfgTokenNotFound),
            21 => Some(MgError::CfgParseError),
            22 => Some(MgError::CfgAllocError),
            23 => Some(MgError::EcLVSBFormatError),
            24 => Some(MgError::EcLVSBSubrError),
            25 => Some(MgError::EcLVSBNoCodeError),
            26 => Some(MgError::WNullWindow),
            27 => Some(MgError::WDestroyMixup),
            28 => Some(MgError::MenuNullMenu),
            29 => Some(MgError::PAbortJob),
            30 => Some(MgError::PBadPrintRecord),
            31 => Some(MgError::PDriverError),
            32 => Some(MgError::PWindowsError),
            33 => Some(MgError::PMemoryError),
            34 => Some(MgError::PDialogError),
            35 => Some(MgError::PMiscError),
            36 => Some(MgError::DvInvalidRefnum),
            37 => Some(MgError::DvDeviceNotFound),
            38 => Some(MgError::DvParamErr),
            39 => Some(MgError::DvUnitErr),
            40 => Some(MgError::DvOpenErr),
            41 => Some(MgError::DvAbortErr),
            42 => Some(MgError::BogusError),
            43 => Some(MgError::CancelError),
            44 => Some(MgError::OMObjLowErr),
            45 => Some(MgError::OMObjHiErr),
            46 => Some(MgError::OMObjNotInHeapErr),
            47 => Some(MgError::OMOHeapNotKnownErr),
            48 => Some(MgError::OMBadDPIdErr),
            49 => Some(MgError::OMNoDPinTabErr),
            50 => Some(MgError::OMMsgOutOfRangeErr),
            51 => Some(MgError::OMMethodNullErr),
            52 => Some(MgError::OMUnknownMsgErr),
            53 => Some(MgError::MgNotSupported),
            54 => Some(MgError::NcBadAddressErr),
            55 => Some(MgError::NcInProgress),
            56 => Some(MgError::NcTimeOutErr),
            57 => Some(MgError::NcBusyErr),
            58 => Some(MgError::NcNotSupportedErr),
            59 => Some(MgError::NcNetErr),
            60 => Some(MgError::NcAddrInUseErr),
            61 => Some(MgError::NcSysOutOfMem),
            62 => Some(MgError::NcSysConnAbortedErr),
            63 => Some(MgError::NcConnRefusedErr),
            64 => Some(MgError::NcNotConnectedErr),
            65 => Some(MgError::NcAlreadyConnectedErr),
            66 => Some(MgError::NcConnClosedErr),
            67 => Some(MgError::AmInitErr),
            68 => Some(MgError::OccBadOccurrenceErr),
            69 => Some(MgError::OccWaitOnUnBoundHdlrErr),
            70 => Some(MgError::OccFunnyQOverFlowErr),
            71 => Some(MgError::FDataLogTypeConflict),
            72 => Some(MgError::EcLVSBCannotBeCalledFromThread),
            73 => Some(MgError::AmUnrecognizedType),
            74 => Some(MgError::MCorruptErr),
            75 => Some(MgError::EcLVSBErrorMakingTempDLL),
            76 => Some(MgError::EcLVSBOldCIN),
            81 => Some(MgError::FmtTypeMismatch),
            82 => Some(MgError::FmtUnknownConversion),
            83 => Some(MgError::FmtTooFew),
            84 => Some(MgError::FmtTooMany),
            85 => Some(MgError::FmtScanError),
            87 => Some(MgError::LvOLEConvertErr),
            88 => Some(MgError::RtMenuErr),
            89 => Some(MgError::PwdTampered),
            90 => Some(MgError::LvVariantAttrNotFound),
            91 => Some(MgError::LvVariantTypeMismatch),
            92 => Some(MgError::AxEventDataNotAvailable),
            93 => Some(MgError::AxEventStoreNotPresent),
            94 => Some(MgError::AxOccurrenceNotFound),
            95 => Some(MgError::AxEventQueueNotCreated),
            96 => Some(MgError::AxEventInfoNotAvailable),
            97 => Some(MgError::OleNullRefnumPassed),
            102 => Some(MgError::IviInvalidDowncast),
            103 => Some(MgError::IviInvalidClassSesn),
            108 => Some(MgError::NcSockNotMulticast),
            109 => Some(MgError::NcSockNotSinglecast),
            110 => Some(MgError::NcBadMulticastAddr),
            111 => Some(MgError::NcMcastSockReadOnly),
            112 => Some(MgError::NcMcastSockWriteOnly),
            113 => Some(MgError::NcDatagramMsgSzErr),
            116 => Some(MgError::DataCorruptErr),
            117 => Some(MgError::RequireFullPathErr),
            118 => Some(MgError::FolderNotExistErr),
            119 => Some(MgError::NcBtInvalidModeErr),
            120 => Some(MgError::NcBtSetModeErr),
            121 => Some(MgError::MgBtInvalidGUIDStrErr),
            122 => Some(MgError::RVersInFuture),
            _ => None,
        }
    }

    /// The host's text for this error.
    pub fn description(&self) -> (r: &'static str)
        ensures
            r@ == self.spec_description(),
    {
        match self {
            MgError::MgArgErr => "An input parameter is invalid.",
            MgError::MFullErr => "Memory is full.",
            MgError::FEof => "End of file encountered.",
            MgError::FIsOpen => "File already open",
            MgError::FIoErr => "Generic file I/O error.",
            MgError::FNotFound => "File not found",
            MgError::FNoPerm => "File permission error.",
            MgError::FDiskFull => "Disk full",
            MgError::FDupPath => "Duplicate path",
            MgError::FtMFOpen => "Too many files open.",
            MgError::FNotEnabled => "Some system capacity necessary for operation is not enabled.",
            MgError::RfNotFound => "Failed to load dynamic library because of missing external symbols or dependencies, or because of an invalid file format.",
            MgError::RAddFailed => "Cannot add resource.",
            MgError::RNotFound => "Resource not found.",
            MgError::INotFound => "Image not found.",
            MgError::IMemoryErr => "Not enough memory to manipulate image.",
            MgError::DPenNotExist => "DPen does not exist.",
            MgError::CfgBadType => "Configuration type invalid.",
            MgError::CfgTokenNotFound => "Configuration token not found.",
            MgError::CfgParseError => "Error occurred parsing configuration string.",
            MgError::CfgAllocError => "Configuration memory error.",
            MgError::EcLVSBFormatError => "Bad external code format.",
            MgError::EcLVSBSubrError => "External subroutine not supported.",
            MgError::EcLVSBNoCodeError => "External code not present.",
            MgError::WNullWindow => "Null window.",
            MgError::WDestroyMixup => "Destroy window error.",
            MgError::MenuNullMenu => "Null menu.",
            MgError::PAbortJob => "Print aborted",
            MgError::PBadPrintRecord => "Bad print record.",
            MgError::PDriverError => "Print driver error.",
            MgError::PWindowsError => "Operating system error during print.",
            MgError::PMemoryError => "Memory error during print.",
            MgError::PDialogError => "Print dialog error.",
            MgError::PMiscError => "Generic print error.",
            MgError::DvInvalidRefnum => "Invalid device refnum.",
            MgError::DvDeviceNotFound => "Device not found.",
            MgError::DvParamErr => "Device parameter error.",
            MgError::DvUnitErr => "Device unit error.",
            MgError::DvOpenErr => "Cannot open device.",
            MgError::DvAbortErr => "Device call aborted.",
            MgError::BogusError => "Generic error.",
            MgError::CancelError => "Operation cancelled by user.",
            MgError::OMObjLowErr => "Object ID too low.",
            MgError::OMObjHiErr => "Object ID too high.",
            MgError::OMObjNotInHeapErr => "Object not in heap.",
            MgError::OMOHeapNotKnownErr => "Unknown heap.",
            MgError::OMBadDPIdErr => "Unknown object (invalid DefProc).",
            MgError::OMNoDPinTabErr => "Unknown object (DefProc not in table).",
            MgError::OMMsgOutOfRangeErr => "Message out of range.",
            MgError::OMMethodNullErr => "Null method.",
            MgError::OMUnknownMsgErr => "Unknown message.",
            MgError::MgNotSupported => "Manager call not supported.",
            MgError::NcBadAddressErr => "The network address is ill-formed.",
            MgError::NcInProgress => "The network operation is in progress.",
            MgError::NcTimeOutErr => "The network operation exceeded the user-specified or system time limit.",
            MgError::NcBusyErr => "The network connection is busy.",
            MgError::NcNotSupportedErr => "The network function is not supported by the system.",
            MgError::NcNetErr => "The network is down, unreachable, or has been reset.",
            MgError::NcAddrInUseErr => "The specified port or network address is currently in use. Select an available port or network address.",
            MgError::NcSysOutOfMem => "The system could not allocate the necessary memory.",
            MgError::NcSysConnAbortedErr => "The system caused the network connection to be aborted.",
            MgError::NcConnRefusedErr => "The network connection was refused by the server.",
            MgError::NcNotConnectedErr => "The network connection is not yet established.",
            MgError::NcAlreadyConnectedErr => "The network connection is already established.",
            MgError::NcConnClosedErr => "The network connection was closed by the peer.",
            MgError::AmInitErr => "Interapplication Manager initialization error.",
            MgError::OccBadOccurrenceErr => "Bad occurrence.",
            MgError::OccWaitOnUnBoundHdlrErr => "Handler does not know what occurrence to wait for.",
            MgError::OccFunnyQOverFlowErr => "Occurrence queue overflow.",
            MgError::FDataLogTypeConflict => "File datalog type conflict.",
            MgError::EcLVSBCannotBeCalledFromThread => "Semaphore not signaled.",
            MgError::AmUnrecognizedType => "Interapplication Manager unrecognized type error.",
            MgError::MCorruptErr => "Memory or data structure corrupt.",
            MgError::EcLVSBErrorMakingTempDLL => "Failed to make temporary DLL.",
            MgError::EcLVSBOldCIN => "Old CIN version.",
            MgError::FmtTypeMismatch => "Format specifier type mismatch.",
            MgError::FmtUnknownConversion => "Unknown format specifier.",
            MgError::FmtTooFew => "Too few format specifiers.",
            MgError::FmtTooMany => "Too many format specifiers.",
            MgError::FmtScanError => "Scan failed. The input string does not contain data in the expected format.",
            MgError::LvOLEConvertErr => "Error converting to variant.",
            MgError::RtMenuErr => "Run-time menu error.",
            MgError::PwdTampered => "Another user tampered with the VI password.",
            MgError::LvVariantAttrNotFound => "Variant attribute not found.",
            MgError::LvVariantTypeMismatch => "The data type of the variant is not compatible with the data type wired to the type input.",
            MgError::AxEventDataNotAvailable => "The ActiveX event data was not available on the queue.",
            MgError::AxEventStoreNotPresent => "ActiveX event information was not available.",
            MgError::AxOccurrenceNotFound => "The occurrence associated with the ActiveX event was not found.",
            MgError::AxEventQueueNotCreated => "The ActiveX event queue could not be created.",
            MgError::AxEventInfoNotAvailable => "ActiveX event information was not available in the type library.",
            MgError::OleNullRefnumPassed => "A null or previously deleted refnum was passed in as an input.",
            MgError::IviInvalidDowncast => "IVI invalid downcast.",
            MgError::IviInvalidClassSesn => "No IVI class session opened.",
            MgError::NcSockNotMulticast => "Singlecast connections cannot send to multicast addresses.",
            MgError::NcSockNotSinglecast => "Multicast connections cannot send to singlecast addresses.",
            MgError::NcBadMulticastAddr => "Specified IP address is not in multicast address range.",
            MgError::NcMcastSockReadOnly => "Cannot write to read-only multicast connection.",
            MgError::NcMcastSockWriteOnly => "Cannot read from write-only multicast connection.",
            MgError::NcDatagramMsgSzErr => "A message sent on a datagram socket was larger than the internal message buffer or some other network limit, or the buffer used to receive a datagram was smaller than the datagram itself.",
            MgError::DataCorruptErr => "Unflatten or byte stream read operation failed due to corrupt, unexpected, or truncated data.",
            MgError::RequireFullPathErr => "Directory path supplied where a file path is required. A file path with the filename is required, but the supplied path is a path to a directory.",
            MgError::FolderNotExistErr => "The supplied folder path does not exist.",
            MgError::NcBtInvalidModeErr => "Illegal combination of Bluetooth discoverable and non-connectable modes.",
            MgError::NcBtSetModeErr => "Error setting Bluetooth mode.",
            MgError::MgBtInvalidGUIDStrErr => "Invalid GUID string.",
            MgError::RVersInFuture => "The resource you are attempting to open was created in a more recent version of LabVIEW and is incompatible with this version.",
        }
    }
}

} // verus!
