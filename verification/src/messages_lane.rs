//! The Millau -> Rialto message lane as the relay sees it: which runtime parameters
//! hold the conversion rates and fee multipliers that it keeps up to date.
use vstd::prelude::*;

verus! {

/// The Millau -> Rialto messages bridge.
pub struct MillauMessagesToRialto;

impl MillauMessagesToRialto {
    /// The Rialto runtime parameter that holds the Millau-to-Rialto conversion rate.
    pub fn source_to_target_conversion_rate_parameter_name() -> (res: Option<&'static str>)
        ensures
            res matches Some(name) && name@ == "MillauToRialtoConversionRate"@,
    {
        Some("MillauToRialtoConversionRate")
    }

    /// The Millau runtime parameter that holds the Rialto-to-Millau conversion rate.
    pub fn target_to_source_conversion_rate_parameter_name() -> (res: Option<&'static str>)
        ensures
            res matches Some(name) && name@ == "RialtoToMillauConversionRate"@,
    {
        Some("RialtoToMillauConversionRate")
    }

    /// The parameter that holds the fee multiplier at the source: there is none.
    pub fn source_fee_multiplier_parameter_name() -> (res: Option<&'static str>)
        ensures
            res is None,
    {
        None
    }

    /// The parameter that holds the fee multiplier at the target: there is none.
    pub fn target_fee_multiplier_parameter_name() -> (res: Option<&'static str>)
        ensures
            res is None,
    {
        None
    }

    /// The transaction payment pallet at the source: none is named.
    pub fn at_source_transaction_payment_pallet_name() -> (res: Option<&'static str>)
        ensures
            res is None,
    {
        None
    }

    /// The transaction payment pallet at the target: none is named.
    pub fn at_target_transaction_payment_pallet_name() -> (res: Option<&'static str>)
        ensures
            res is None,
    {
        None
    }
}

} // verus!
