//! The payloads of the Hyperliquid perpetuals venue, as decoded.
//!
//! Prices, sizes and rates are the venue's decimal texts; times are
//! milliseconds since the Unix epoch.

use vstd::prelude::*;

verus! {

#[allow(non_camel_case_types)]
#[derive(Debug, Clone, PartialEq, Eq)]
pub struct Hyperliquid_book_level {
    pub px: String,
    pub sz: String,
    pub n: u32,
}

/// The venue returns `levels` as `[bids, asks]`.
#[allow(non_camel_case_types)]
pub type Hyperliquid_levels = [Vec<Hyperliquid_book_level>; 2];

#[derive(Debug, Clone, PartialEq, Eq)]
pub struct HyperliquidPerpDepthSnapshot {
    pub coin: String,
    /// Event time in milliseconds.
    pub time: u64,
    pub levels: Hyperliquid_levels,
    /// Present on some snapshots.
    pub spread: Option<String>,
}

#[derive(Debug, Clone, PartialEq, Eq)]
pub struct HyperliquidPerpInfoSnapshot {
    pub universe: Vec<Hyperliquid_perp_universe_entry>,
    /// Pairs of a table's identifier and the table.
    pub margin_tables: Vec<(u32, Hyperliquid_margin_table)>,
    pub collateral_token: u32,
}

#[allow(non_camel_case_types)]
#[derive(Debug, Clone, PartialEq, Eq)]
pub struct Hyperliquid_perp_universe_entry {
    pub sz_decimals: u32,
    pub name: String,
    pub max_leverage: u32,
    pub margin_table_id: u32,
    pub is_delisted: bool,
    pub only_isolated: bool,
    pub margin_mode: Option<String>,
}

#[allow(non_camel_case_types)]
#[derive(Debug, Clone, PartialEq, Eq)]
pub struct Hyperliquid_margin_table {
    pub description: String,
    pub margin_tiers: Vec<Hyperliquid_margin_tier>,
}

#[allow(non_camel_case_types)]
#[derive(Debug, Clone, PartialEq, Eq)]
pub struct Hyperliquid_margin_tier {
    pub lower_bound: String,
    pub max_leverage: u32,
}

#[derive(Debug, Clone, PartialEq, Eq)]
pub struct HyperliquidPerpWsDepthUpdate {
    pub channel: String,
    pub data: Hyperliquid_perp_ws_depth_data,
}

#[allow(non_camel_case_types)]
#[derive(Debug, Clone, PartialEq, Eq)]
pub struct Hyperliquid_perp_ws_depth_data {
    pub coin: String,
    pub time: u64,
    pub levels: Hyperliquid_levels,
}

#[derive(Debug, Clone, PartialEq, Eq)]
pub struct HyperliquidPerpWsOIFundingUpdate {
    pub channel: String,
    pub data: Hyperliquid_perp_ws_oi_funding_data,
}

#[allow(non_camel_case_types)]
#[derive(Debug, Clone, PartialEq, Eq)]
pub struct Hyperliquid_perp_ws_oi_funding_data {
    pub coin: String,
    pub ctx: Hyperliquid_active_asset_ctx,
}

#[allow(non_camel_case_types)]
#[derive(Debug, Clone, PartialEq, Eq)]
pub struct Hyperliquid_active_asset_ctx {
    pub funding: String,
    pub open_interest: String,
    pub prev_day_px: String,
    pub day_ntl_vlm: String,
    pub premium: String,
    pub oracle_px: String,
    pub mark_px: String,
    pub mid_px: String,
    pub impact_pxs: [String; 2],
    pub day_base_vlm: String,
}

#[derive(Debug, Clone, PartialEq, Eq)]
pub struct HyperliquidPerpWsTrade {
    pub channel: String,
    pub data: Vec<Hyperliquid_trade>,
}

#[allow(non_camel_case_types)]
#[derive(Debug, Clone, PartialEq, Eq)]
pub struct Hyperliquid_trade {
    pub coin: String,
    /// `B` or `S` in the payload.
    pub side: String,
    pub px: String,
    pub sz: String,
    pub time: u64,
    pub hash: String,
    pub tid: u64,
    pub users: Vec<String>,
}

} // verus!
