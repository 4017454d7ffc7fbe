use vstd::prelude::*;

use crate::conversion::ConversionResult;

verus! {

/// A language's declaration that converts to and from the neutral IR. Each conversion returns
/// the converted value with the log of every feature it could not carry over.
pub trait BackendItem: Sized {
    /// The IR type this item converts to and from.
    type IrType;
    /// The options of the conversion.
    type ConversionOptions;

    /// Converts the declaration to the IR.
    fn to_ir(self, options: Option<&Self::ConversionOptions>) -> ConversionResult<Self::IrType>;

    /// Converts an IR declaration to this language.
    fn from_ir(input: Self::IrType, options: Option<&Self::ConversionOptions>) -> ConversionResult<Self>;
}

} // verus!
