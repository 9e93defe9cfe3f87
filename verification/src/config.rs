//! The switches of a pool and the requests that set them.

use vstd::prelude::*;
use crate::error::SwapError;

verus! {

/// The number of bytes that carry the value of a configuration update.
pub const VALUE_BYTE_ARRAY_LEN: usize = 32;

/// The switches that gate the operations of a pool.
#[derive(Clone, Copy, Debug, PartialEq, Eq, Structural)]
pub struct PoolConfig {
    /// No trades are accepted.
    pub trading_disabled: bool,
    /// No deposits are accepted.
    pub deposits_disabled: bool,
    /// Neither trades nor deposits are accepted; liquidity can still leave.
    pub withdrawals_only: bool,
}

/// The setting that a configuration update changes.
#[derive(Clone, Copy, Debug, PartialEq, Eq, Structural)]
pub enum UpdatePoolConfigMode {
    /// The `withdrawals_only` switch.
    WithdrawalsOnly,
    /// The `trading_disabled` switch.
    TradingDisabled,
    /// The `deposits_disabled` switch.
    DepositsDisabled,
}

/// The value that a configuration update sets.
#[derive(Clone, Copy, Debug, PartialEq, Eq, Structural)]
pub enum UpdatePoolConfigValue {
    /// A switch position.
    Bool(bool),
}

/// A request to change one setting of a pool.
#[derive(Clone, Copy, Debug, PartialEq, Eq, Structural)]
pub struct UpdatePoolConfig {
    /// The setting to change.
    pub mode: UpdatePoolConfigMode,
    /// The value to give it.
    pub value: UpdatePoolConfigValue,
}

/// The setting that a mode number names.
pub open spec fn mode_of(mode: u16) -> Option<UpdatePoolConfigMode> {
    if mode == 0 {
        Some(UpdatePoolConfigMode::WithdrawalsOnly)
    } else if mode == 1 {
        Some(UpdatePoolConfigMode::TradingDisabled)
    } else if mode == 2 {
        Some(UpdatePoolConfigMode::DepositsDisabled)
    } else {
        None
    }
}

/// The switch position that a value array encodes: the first byte is 0 or 1
/// and every other byte is 0.
pub open spec fn bool_of(value: Seq<u8>) -> Option<bool> {
    if value.len() == VALUE_BYTE_ARRAY_LEN && value[0] <= 1 && (forall|i: int|
        1 <= i < value.len() ==> value[i] == 0) {
        Some(value[0] == 1)
    } else {
        None
    }
}

impl UpdatePoolConfigMode {
    /// The number that names this setting.
    pub fn to_u16(self) -> (mode: u16)
        ensures
            mode_of(mode) == Some(self),
    {
        match self {
            UpdatePoolConfigMode::WithdrawalsOnly => 0,
            UpdatePoolConfigMode::TradingDisabled => 1,
            UpdatePoolConfigMode::DepositsDisabled => 2,
        }
    }

    /// The setting that `mode` names, if any.
    pub fn from_u16(mode: u16) -> (r: Option<UpdatePoolConfigMode>)
        ensures
            r == mode_of(mode),
    {
        if mode == 0 {
            Some(UpdatePoolConfigMode::WithdrawalsOnly)
        } else if mode == 1 {
            Some(UpdatePoolConfigMode::TradingDisabled)
        } else if mode == 2 {
            Some(UpdatePoolConfigMode::DepositsDisabled)
        } else {
            None
        }
    }
}

impl UpdatePoolConfigValue {
    /// The value as the byte array of a request.
    pub fn to_bytes(self) -> (bytes: [u8; 32])
        ensures
            self matches UpdatePoolConfigValue::Bool(position) && bool_of(bytes@) == Some(
                position,
            ),
    {
        let mut bytes: [u8; 32] = [0u8; 32];
        match self {
            UpdatePoolConfigValue::Bool(position) => {
                if position {
                    bytes[0] = 1;
                }
            },
        }
        bytes
    }

    /// Reads a switch position from the byte array of a request.
    pub fn bool_from_bytes(bytes: &[u8; 32]) -> (r: Option<UpdatePoolConfigValue>)
        ensures
            r == match bool_of(bytes@) {
                Some(position) => Some(UpdatePoolConfigValue::Bool(position)),
                None => None,
            },
    {
        if bytes[0] > 1 {
            return None;
        }
        let mut i: usize = 1;
        while i < 32
            invariant
                1 <= i <= 32,
                forall|j: int| 1 <= j < i ==> bytes@[j] == 0,
            decreases 32 - i,
        {
            if bytes[i] != 0 {
                return None;
            }
            i = i + 1;
        }
        Some(UpdatePoolConfigValue::Bool(bytes[0] == 1))
    }
}

impl UpdatePoolConfig {
    /// A request to give the setting `mode` the value `value`.
    pub fn new(mode: UpdatePoolConfigMode, value: UpdatePoolConfigValue) -> (update:
        UpdatePoolConfig)
        ensures
            update.mode == mode,
            update.value == value,
    {
        UpdatePoolConfig { mode, value }
    }
}

impl PoolConfig {
    /// Whether trades are accepted.
    pub open spec fn can_swap_spec(&self) -> bool {
        !self.trading_disabled && !self.withdrawals_only
    }

    /// Whether deposits are accepted.
    pub open spec fn can_deposit_spec(&self) -> bool {
        !self.deposits_disabled && !self.withdrawals_only
    }

    /// Whether withdrawals are accepted: always.
    pub open spec fn can_withdraw_spec(&self) -> bool {
        true
    }

    /// The configuration after one setting was changed.
    pub open spec fn updated(&self, update: UpdatePoolConfig) -> PoolConfig {
        match (update.mode, update.value) {
            (UpdatePoolConfigMode::WithdrawalsOnly, UpdatePoolConfigValue::Bool(position)) => {
                PoolConfig { withdrawals_only: position, ..*self }
            },
            (UpdatePoolConfigMode::TradingDisabled, UpdatePoolConfigValue::Bool(position)) => {
                PoolConfig { trading_disabled: position, ..*self }
            },
            (UpdatePoolConfigMode::DepositsDisabled, UpdatePoolConfigValue::Bool(position)) => {
                PoolConfig { deposits_disabled: position, ..*self }
            },
        }
    }

    /// Why a trade is turned down, if it is: `WithdrawalsOnlyMode` in the
    /// withdrawals-only mode, else `TradingDisabled` when trading is off.
    pub open spec fn swap_refusal(&self) -> Option<SwapError> {
        if self.withdrawals_only {
            Some(SwapError::WithdrawalsOnlyMode)
        } else if self.trading_disabled {
            Some(SwapError::TradingDisabled)
        } else {
            None
        }
    }

    /// Why a deposit is turned down, if it is: `WithdrawalsOnlyMode` in the
    /// withdrawals-only mode, else `DepositsDisabled` when deposits are off.
    pub open spec fn deposit_refusal(&self) -> Option<SwapError> {
        if self.withdrawals_only {
            Some(SwapError::WithdrawalsOnlyMode)
        } else if self.deposits_disabled {
            Some(SwapError::DepositsDisabled)
        } else {
            None
        }
    }

    /// Trades are accepted unless trading is off or the pool is in the
    /// withdrawals-only mode.
    pub fn can_swap(&self) -> (allowed: bool)
        ensures
            allowed == self.can_swap_spec(),
            allowed == (self.swap_refusal() is None),
    {
        !self.trading_disabled && !self.withdrawals_only
    }

    /// Deposits are accepted unless deposits are off or the pool is in the
    /// withdrawals-only mode.
    pub fn can_deposit(&self) -> (allowed: bool)
        ensures
            allowed == self.can_deposit_spec(),
            allowed == (self.deposit_refusal() is None),
    {
        !self.deposits_disabled && !self.withdrawals_only
    }

    /// Withdrawals are accepted whatever the switches say.
    pub fn can_withdraw(&self) -> (allowed: bool)
        ensures
            allowed,
            allowed == self.can_withdraw_spec(),
    {
        true
    }

    /// Passes when trades are accepted, and names the switch that stops them
    /// when they are not.
    pub fn check_swap(&self) -> (r: Result<(), SwapError>)
        ensures
            r == match self.swap_refusal() {
                Some(e) => Err::<(), SwapError>(e),
                None => Ok::<(), SwapError>(()),
            },
    {
        if self.withdrawals_only {
            Err(SwapError::WithdrawalsOnlyMode)
        } else if self.trading_disabled {
            Err(SwapError::TradingDisabled)
        } else {
            Ok(())
        }
    }

    /// Passes when deposits are accepted, and names the switch that stops
    /// them when they are not.
    pub fn check_deposit(&self) -> (r: Result<(), SwapError>)
        ensures
            r == match self.deposit_refusal() {
                Some(e) => Err::<(), SwapError>(e),
                None => Ok::<(), SwapError>(()),
            },
    {
        if self.withdrawals_only {
            Err(SwapError::WithdrawalsOnlyMode)
        } else if self.deposits_disabled {
            Err(SwapError::DepositsDisabled)
        } else {
            Ok(())
        }
    }

    /// Passes: no switch stops a withdrawal.
    pub fn check_withdraw(&self) -> (r: Result<(), SwapError>)
        ensures
            r == Ok::<(), SwapError>(()),
            self.can_withdraw_spec(),
    {
        Ok(())
    }

    /// The configuration with one setting changed and the others kept.
    pub fn apply(&self, update: UpdatePoolConfig) -> (config: PoolConfig)
        ensures
            config == self.updated(update),
    {
        let mut config: PoolConfig = *self;
        match update.value {
            UpdatePoolConfigValue::Bool(position) => match update.mode {
                UpdatePoolConfigMode::WithdrawalsOnly => {
                    config.withdrawals_only = position;
                },
                UpdatePoolConfigMode::TradingDisabled => {
                    config.trading_disabled = position;
                },
                UpdatePoolConfigMode::DepositsDisabled => {
                    config.deposits_disabled = position;
                },
            },
        }
        config
    }
}

impl Default for PoolConfig {
    /// The configuration of a new pool: every operation is accepted.
    fn default() -> (config: PoolConfig)
        ensures
            !config.trading_disabled,
            !config.deposits_disabled,
            !config.withdrawals_only,
    {
        PoolConfig { trading_disabled: false, deposits_disabled: false, withdrawals_only: false }
    }
}

/// The outcome of `update_pool_config`.
pub open spec fn update_pool_config_spec(config: PoolConfig, mode: u16, value: Seq<u8>) -> Result<
    PoolConfig,
    SwapError,
> {
    match mode_of(mode) {
        None => Err(SwapError::InvalidConfigMode),
        Some(m) => match bool_of(value) {
            None => Err(SwapError::InvalidConfigValue),
            Some(position) => Ok(
                config.updated(
                    UpdatePoolConfig { mode: m, value: UpdatePoolConfigValue::Bool(position) },
                ),
            ),
        },
    }
}

/// Applies a configuration request as it arrives: a mode number and a value
/// array.
///
/// Fails with `InvalidConfigMode` when the number names no setting, and with
/// `InvalidConfigValue` when the array encodes no switch position; else the
/// named switch takes the position and the other switches stay.
pub fn update_pool_config(config: &PoolConfig, mode: u16, value: &[u8; 32]) -> (r: Result<
    PoolConfig,
    SwapError,
>)
    ensures
        r == update_pool_config_spec(*config, mode, value@),
{
    let m: UpdatePoolConfigMode = match UpdatePoolConfigMode::from_u16(mode) {
        Some(m) => m,
        None => {
            return Err(SwapError::InvalidConfigMode);
        },
    };
    let v: UpdatePoolConfigValue = match UpdatePoolConfigValue::bool_from_bytes(value) {
        Some(v) => v,
        None => {
            return Err(SwapError::InvalidConfigValue);
        },
    };
    Ok(config.apply(UpdatePoolConfig::new(m, v)))
}

} // verus!
