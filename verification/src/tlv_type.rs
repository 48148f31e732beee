//! Classification of 16-bit TLV wire codes into semantic categories.
//!
//! The 65536 possible codes partition exactly, with no gaps and no overlaps,
//! across the categories below: some categories own a single standard-assigned
//! code, the others (`Reserved`, `Legacy`, `Experimental`) own named
//! multi-code ranges.

use vstd::prelude::*;

verus! {

/// Semantic category of a TLV record, per the protocol's type-code table.
#[derive(Debug, Clone, Copy, PartialEq, Eq, Structural)]
pub enum TlvType {
    Reserved,
    Management,
    ManagementErrorStatus,
    OrganizationExtension,
    RequestUnicastTransmission,
    GrantUnicastTransmission,
    CancelUnicastTransmission,
    AcknowledgeCancelUnicastTransmission,
    PathTrace,
    AlternateTimeOffsetIndicator,
    Legacy,
    Experimental,
    OrganizationExtensionPropagate,
    EnhancedAccuracyMetrics,
    OrganizationExtensionDoNotPropagate,
    L1Sync,
    PortCommunicationAvailability,
    ProtocolAddress,
    SlaveRxSyncTimingData,
    SlaveRxSyncComputedData,
    SlaveTxEventTimestamps,
    CumulativeRateRatio,
    Pad,
    Authentication,
}

impl TlvType {
    /// The canonical wire code of each category: the standard-assigned code
    /// for single-code categories, the representative (first) code of the
    /// range for range-backed categories.
    pub open spec fn spec_to_primitive(self) -> u16 {
        match self {
            TlvType::Reserved => 0x0000,
            TlvType::Management => 0x0001,
            TlvType::ManagementErrorStatus => 0x0002,
            TlvType::OrganizationExtension => 0x0003,
            TlvType::RequestUnicastTransmission => 0x0004,
            TlvType::GrantUnicastTransmission => 0x0005,
            TlvType::CancelUnicastTransmission => 0x0006,
            TlvType::AcknowledgeCancelUnicastTransmission => 0x0007,
            TlvType::PathTrace => 0x0008,
            TlvType::AlternateTimeOffsetIndicator => 0x0009,
            TlvType::Legacy => 0x2000,
            TlvType::Experimental => 0x2004,
            TlvType::OrganizationExtensionPropagate => 0x4000,
            TlvType::EnhancedAccuracyMetrics => 0x4001,
            TlvType::OrganizationExtensionDoNotPropagate => 0x8000,
            TlvType::L1Sync => 0x8001,
            TlvType::PortCommunicationAvailability => 0x8002,
            TlvType::ProtocolAddress => 0x8003,
            TlvType::SlaveRxSyncTimingData => 0x8004,
            TlvType::SlaveRxSyncComputedData => 0x8005,
            TlvType::SlaveTxEventTimestamps => 0x8006,
            TlvType::CumulativeRateRatio => 0x8007,
            TlvType::Pad => 0x8008,
            TlvType::Authentication => 0x8009,
        }
    }

    /// Total classification of a wire code: single-code categories first,
    /// then the `Legacy` and `Experimental` ranges; every remaining code is
    /// `Reserved`.
    pub open spec fn spec_from_primitive(value: u16) -> TlvType {
        if value == 0x0001 {
            TlvType::Management
        } else if value == 0x0002 {
            TlvType::ManagementErrorStatus
        } else if value == 0x0003 {
            TlvType::OrganizationExtension
        } else if value == 0x0004 {
            TlvType::RequestUnicastTransmission
        } else if value == 0x0005 {
            TlvType::GrantUnicastTransmission
        } else if value == 0x0006 {
            TlvType::CancelUnicastTransmission
        } else if value == 0x0007 {
            TlvType::AcknowledgeCancelUnicastTransmission
        } else if value == 0x0008 {
            TlvType::PathTrace
        } else if value == 0x0009 {
            TlvType::AlternateTimeOffsetIndicator
        } else if value == 0x4000 {
            TlvType::OrganizationExtensionPropagate
        } else if value == 0x4001 {
            TlvType::EnhancedAccuracyMetrics
        } else if value == 0x8000 {
            TlvType::OrganizationExtensionDoNotPropagate
        } else if value == 0x8001 {
            TlvType::L1Sync
        } else if value == 0x8002 {
            TlvType::PortCommunicationAvailability
        } else if value == 0x8003 {
            TlvType::ProtocolAddress
        } else if value == 0x8004 {
            TlvType::SlaveRxSyncTimingData
        } else if value == 0x8005 {
            TlvType::SlaveRxSyncComputedData
        } else if value == 0x8006 {
            TlvType::SlaveTxEventTimestamps
        } else if value == 0x8007 {
            TlvType::CumulativeRateRatio
        } else if value == 0x8008 {
            TlvType::Pad
        } else if value == 0x8009 {
            TlvType::Authentication
        } else if 0x2000 <= value && value <= 0x2003 {
            TlvType::Legacy
        } else if (0x2004 <= value && value <= 0x202f) || (0x7f00 <= value && value <= 0x7fff) {
            TlvType::Experimental
        } else {
            TlvType::Reserved
        }
    }

    /// The canonical wire code of this category.
    pub fn to_primitive(&self) -> (code: u16)
        ensures
            code == self.spec_to_primitive(),
    {
        match self {
            Self::Reserved => 0x0000,
            Self::Management => 0x0001,
            Self::ManagementErrorStatus => 0x0002,
            Self::OrganizationExtension => 0x0003,
            Self::RequestUnicastTransmission => 0x0004,
            Self::GrantUnicastTransmission => 0x0005,
            Self::CancelUnicastTransmission => 0x0006,
            Self::AcknowledgeCancelUnicastTransmission => 0x0007,
            Self::PathTrace => 0x0008,
            Self::AlternateTimeOffsetIndicator => 0x0009,
            Self::Legacy => 0x2000,
            Self::Experimental => 0x2004,
            Self::OrganizationExtensionPropagate => 0x4000,
            Self::EnhancedAccuracyMetrics => 0x4001,
            Self::OrganizationExtensionDoNotPropagate => 0x8000,
            Self::L1Sync => 0x8001,
            Self::PortCommunicationAvailability => 0x8002,
            Self::ProtocolAddress => 0x8003,
            Self::SlaveRxSyncTimingData => 0x8004,
            Self::SlaveRxSyncComputedData => 0x8005,
            Self::SlaveTxEventTimestamps => 0x8006,
            Self::CumulativeRateRatio => 0x8007,
            Self::Pad => 0x8008,
            Self::Authentication => 0x8009,
        }
    }

    /// Classifies a wire code into its category; total over all of `u16`.
    pub fn from_primitive(value: u16) -> (t: TlvType)
        ensures
            t == TlvType::spec_from_primitive(value),
    {
        match value {
            0x0000
            | 0x000a..=0x1fff
            | 0x2030..=0x3fff
            | 0x4002..=0x7eff
            | 0x800a..=0xffef
            | 0xfff0..=0xffff => Self::Reserved,
            0x2000..=0x2003 => Self::Legacy,
            0x2004..=0x202f | 0x7f00..=0x7fff => Self::Experimental,
            0x0001 => Self::Management,
            0x0002 => Self::ManagementErrorStatus,
            0x0003 => Self::OrganizationExtension,
            0x0004 => Self::RequestUnicastTransmission,
            0x0005 => Self::GrantUnicastTransmission,
            0x0006 => Self::CancelUnicastTransmission,
            0x0007 => Self::AcknowledgeCancelUnicastTransmission,
            0x0008 => Self::PathTrace,
            0x0009 => Self::AlternateTimeOffsetIndicator,
            0x4000 => Self::OrganizationExtensionPropagate,
            0x4001 => Self::EnhancedAccuracyMetrics,
            0x8000 => Self::OrganizationExtensionDoNotPropagate,
            0x8001 => Self::L1Sync,
            0x8002 => Self::PortCommunicationAvailability,
            0x8003 => Self::ProtocolAddress,
            0x8004 => Self::SlaveRxSyncTimingData,
            0x8005 => Self::SlaveRxSyncComputedData,
            0x8006 => Self::SlaveTxEventTimestamps,
            0x8007 => Self::CumulativeRateRatio,
            0x8008 => Self::Pad,
            0x8009 => Self::Authentication,
        }
    }
}

impl Default for TlvType {
    /// The default category is `Management`.
    fn default() -> (t: Self)
        ensures
            t == TlvType::Management,
    {
        TlvType::Management
    }
}

/// Classifying a category's canonical wire code yields that category again:
/// the bidirectional mapping round-trips for every category, range-backed
/// ones included.
pub proof fn lemma_to_from_primitive_roundtrip(t: TlvType)
    ensures
        TlvType::spec_from_primitive(t.spec_to_primitive()) == t,
{
}

/// The declared code ranges and single codes classify as stated, and together
/// they cover every 16-bit code: the partition has no gaps, and
/// `spec_from_primitive`, being a function, assigns each code exactly one
/// category.
pub proof fn lemma_from_primitive_partition(value: u16)
    ensures
        value == 0x0001 ==> TlvType::spec_from_primitive(value) == TlvType::Management,
        value == 0x0002 ==> TlvType::spec_from_primitive(value) == TlvType::ManagementErrorStatus,
        value == 0x0003 ==> TlvType::spec_from_primitive(value) == TlvType::OrganizationExtension,
        value == 0x0004 ==> TlvType::spec_from_primitive(value)
            == TlvType::RequestUnicastTransmission,
        value == 0x0005 ==> TlvType::spec_from_primitive(value)
            == TlvType::GrantUnicastTransmission,
        value == 0x0006 ==> TlvType::spec_from_primitive(value)
            == TlvType::CancelUnicastTransmission,
        value == 0x0007 ==> TlvType::spec_from_primitive(value)
            == TlvType::AcknowledgeCancelUnicastTransmission,
        value == 0x0008 ==> TlvType::spec_from_primitive(value) == TlvType::PathTrace,
        value == 0x0009 ==> TlvType::spec_from_primitive(value)
            == TlvType::AlternateTimeOffsetIndicator,
        value == 0x4000 ==> TlvType::spec_from_primitive(value)
            == TlvType::OrganizationExtensionPropagate,
        value == 0x4001 ==> TlvType::spec_from_primitive(value)
            == TlvType::EnhancedAccuracyMetrics,
        value == 0x8000 ==> TlvType::spec_from_primitive(value)
            == TlvType::OrganizationExtensionDoNotPropagate,
        value == 0x8001 ==> TlvType::spec_from_primitive(value) == TlvType::L1Sync,
        value == 0x8002 ==> TlvType::spec_from_primitive(value)
            == TlvType::PortCommunicationAvailability,
        value == 0x8003 ==> TlvType::spec_from_primitive(value) == TlvType::ProtocolAddress,
        value == 0x8004 ==> TlvType::spec_from_primitive(value)
            == TlvType::SlaveRxSyncTimingData,
        value == 0x8005 ==> TlvType::spec_from_primitive(value)
            == TlvType::SlaveRxSyncComputedData,
        value == 0x8006 ==> TlvType::spec_from_primitive(value)
            == TlvType::SlaveTxEventTimestamps,
        value == 0x8007 ==> TlvType::spec_from_primitive(value) == TlvType::CumulativeRateRatio,
        value == 0x8008 ==> TlvType::spec_from_primitive(value) == TlvType::Pad,
        value == 0x8009 ==> TlvType::spec_from_primitive(value) == TlvType::Authentication,
        0x2000 <= value && value <= 0x2003 ==> TlvType::spec_from_primitive(value)
            == TlvType::Legacy,
        (0x2004 <= value && value <= 0x202f) || (0x7f00 <= value && value <= 0x7fff)
            ==> TlvType::spec_from_primitive(value) == TlvType::Experimental,
        value == 0x0000 || (0x000a <= value && value <= 0x1fff) || (0x2030 <= value && value
            <= 0x3fff) || (0x4002 <= value && value <= 0x7eff) || (0x800a <= value)
            ==> TlvType::spec_from_primitive(value) == TlvType::Reserved,
{
}

} // verus!
