//! Message types of example interfaces: a camera server and a tomato shop.

use vstd::prelude::*;

verus! {

/// A request to record an image.
#[derive(Debug, Clone, Copy, PartialEq, Eq, Structural)]
pub struct RecordRequest {
    /// Record color data.
    pub color: bool,

    /// Record a point cloud.
    pub cloud: bool,
}

/// The progress of a recording.
#[derive(Debug, Clone, Copy, PartialEq, Eq, Structural, PartialOrd, Ord)]
pub enum RecordState {
    /// The camera is recording.
    Recording,

    /// The recording is being processed; the field of view may be obstructed again.
    Processing,

    /// The recording is done.
    Done,
}

/// Why a recording was cancelled.
#[derive(Debug, Clone, Copy, PartialEq, Eq, Structural)]
pub enum CancelReason {
    /// No reason given.
    BecauseISaidSo,

    /// The view of the camera was blocked.
    SomeDoofusObscuredTheCameraView,
}

/// A recorded image.
#[derive(Debug)]
pub struct Image {
    /// The width in pixels.
    pub width: u32,

    /// The height in pixels.
    pub height: u32,

    /// The pixel format.
    pub format: u32,

    /// The pixel data.
    pub data: Vec<u8>,
}

/// Tracing information of a request.
#[derive(Debug)]
pub struct Tracing {
    /// The trace message.
    pub message: String,
}

/// The initial request to buy tomatoes.
#[derive(Debug, Clone, Copy, PartialEq, Eq, Structural)]
pub struct BuyTomatoesRequest {
    /// The tomatoes you want to buy.
    pub amount: usize,
}

/// The price for something.
#[derive(Debug, Clone, Copy, PartialEq, Eq, Structural)]
pub struct Price {
    /// The total price in cents.
    pub total_price_cents: usize,
}

/// Payment options for purchasing tomatoes.
#[derive(Debug, Clone, Copy, PartialEq, Eq, Structural)]
pub enum Payment {
    /// Payment in money.
    Money {
        /// The amount of money, in cents.
        cents: usize,
    },

    /// Payment with an NFT.
    NonFungibleToken,
}

/// The response of a cashier when buying tomatoes.
#[derive(Debug)]
pub enum BuyTomatoesResponse {
    /// A final greeting and your receipt.
    ThankYouComeAgain(Receipt),

    /// Security has been called.
    ICalledSecurity,
}

/// A receipt for your purchase.
#[derive(Debug)]
pub struct Receipt {
    /// The number of tomatoes you bought.
    pub amount_of_tomatoes: usize,

    /// The total price you paid for the tomatoes.
    pub total_price_cents: usize,

    /// If the cashier really liked you, they may write their phone number on the receipt with pen.
    pub phone_number: Option<String>,
}

} // verus!
