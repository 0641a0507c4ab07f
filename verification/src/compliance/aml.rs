//! AML risk engine: tracks the transaction-derived risk of one account.

use vstd::prelude::*;

use crate::types::{AmlRiskLevel, Timestamp};

verus! {

/// Highest risk score a record holds; a computed score above it is clamped.
pub const MAX_RISK_SCORE: u64 = 1000;

/// Amount from which a transaction counts as large.
pub const LARGE_TRANSACTION_THRESHOLD: u64 = 10_000;

/// Score added for a large transaction.
pub const LARGE_TRANSACTION_PENALTY: u64 = 100;

/// Score added per unit of counterparty risk.
pub const COUNTERPARTY_RISK_WEIGHT: u64 = 10;

/// Score from which the level is `Medium`.
pub const MEDIUM_RISK_THRESHOLD: u64 = 150;

/// Score from which the level is `High`.
pub const HIGH_RISK_THRESHOLD: u64 = 300;

/// Amounts that are a multiple of this unit are round amounts.
pub const ROUND_AMOUNT_UNIT: u64 = 10_000;

/// Bit of the suspicious flags that marks a round amount.
pub const ROUND_AMOUNT_FLAG: u64 = 1;

/// The AML record of one account.
#[derive(Debug, Clone, Copy, PartialEq, Eq, Structural)]
pub struct AmlRecord {
    pub risk_level: AmlRiskLevel,
    pub risk_score: u64,
    pub last_assessed_at: Timestamp,
    pub transaction_count: u64,
    pub total_volume: u64,
    /// Bit set of the suspicious patterns seen so far.
    pub suspicious_flags: u64,
}

/// What a read of the AML risk engine reports.
#[derive(Debug, Clone, Copy, PartialEq, Eq, Structural)]
pub struct AmlSnapshot {
    pub risk_level: AmlRiskLevel,
    pub risk_score: u64,
    pub last_assessed_at: Timestamp,
}

/// The risk level of a score: a step function with steps at 150 and 300. No
/// score maps to `Critical`.
pub open spec fn risk_level_for(score: int) -> AmlRiskLevel {
    if score >= HIGH_RISK_THRESHOLD {
        AmlRiskLevel::High
    } else if score >= MEDIUM_RISK_THRESHOLD {
        AmlRiskLevel::Medium
    } else {
        AmlRiskLevel::Low
    }
}

/// The score after an assessment: the current score, plus 100 for a large
/// transaction, plus ten times the counterparty risk, clamped to the cap.
pub open spec fn assessed_score(
    current: int,
    transaction_amount: int,
    counterparty_risk: int,
) -> int {
    let penalty: int = if transaction_amount >= LARGE_TRANSACTION_THRESHOLD {
        LARGE_TRANSACTION_PENALTY as int
    } else {
        0
    };
    let raw = current + penalty + counterparty_risk * COUNTERPARTY_RISK_WEIGHT;
    if raw > MAX_RISK_SCORE {
        MAX_RISK_SCORE as int
    } else {
        raw
    }
}

/// Whether an amount is round: a multiple of ten thousand, zero included.
pub open spec fn is_round_amount(amount: int) -> bool {
    amount % (ROUND_AMOUNT_UNIT as int) == 0
}

/// The suspicious flags after a transaction of `amount` was checked.
pub open spec fn flags_after_check(flags: u64, amount: int) -> u64 {
    if is_round_amount(amount) {
        flags | ROUND_AMOUNT_FLAG
    } else {
        flags
    }
}

/// The level of a score follows the thresholds and nothing else: 300 and above
/// is `High`, 150 up to 299 is `Medium`, anything below is `Low`.
pub proof fn lemma_risk_level_thresholds(score: int)
    ensures
        score >= 300 ==> risk_level_for(score) == AmlRiskLevel::High,
        150 <= score < 300 ==> risk_level_for(score) == AmlRiskLevel::Medium,
        score < 150 ==> risk_level_for(score) == AmlRiskLevel::Low,
{
}

/// The level never falls as the score rises.
pub proof fn lemma_risk_level_monotonic(lower: int, higher: int)
    requires
        lower <= higher,
    ensures
        risk_level_for(lower).rank() <= risk_level_for(higher).rank(),
{
}

/// Once the round-amount bit is set, a further check of any amount leaves it
/// set.
pub proof fn lemma_round_amount_flag_persists(flags: u64, amount: int)
    requires
        flags & ROUND_AMOUNT_FLAG == ROUND_AMOUNT_FLAG,
    ensures
        flags_after_check(flags, amount) & ROUND_AMOUNT_FLAG == ROUND_AMOUNT_FLAG,
{
    assert(flags & 1 == 1 ==> (flags | 1) & 1 == 1) by (bit_vector);
}

/// A round amount leaves the round-amount bit set whatever the flags were.
pub proof fn lemma_round_amount_sets_flag(flags: u64, amount: int)
    requires
        is_round_amount(amount),
    ensures
        flags_after_check(flags, amount) & ROUND_AMOUNT_FLAG == ROUND_AMOUNT_FLAG,
{
    assert((flags | 1) & 1 == 1) by (bit_vector);
}

impl AmlRiskLevel {
    /// The level that a score alone determines.
    pub fn from_score(score: u64) -> (level: AmlRiskLevel)
        ensures
            level == risk_level_for(score as int),
    {
        if score >= HIGH_RISK_THRESHOLD {
            AmlRiskLevel::High
        } else if score >= MEDIUM_RISK_THRESHOLD {
            AmlRiskLevel::Medium
        } else {
            AmlRiskLevel::Low
        }
    }
}

impl AmlRecord {
    /// The record of an account with no history: score zero, level `Low`.
    pub open spec fn initial() -> AmlRecord {
        AmlRecord {
            risk_level: AmlRiskLevel::Low,
            risk_score: 0,
            last_assessed_at: 0,
            transaction_count: 0,
            total_volume: 0,
            suspicious_flags: 0,
        }
    }

    /// A record is well formed when its score is within the cap.
    pub open spec fn wf(self) -> bool {
        self.risk_score <= MAX_RISK_SCORE
    }

    /// The record after an assessment at time `now`.
    pub open spec fn after_assess(
        self,
        transaction_amount: u64,
        counterparty_risk: u64,
        now: Timestamp,
    ) -> AmlRecord {
        let score = assessed_score(
            self.risk_score as int,
            transaction_amount as int,
            counterparty_risk as int,
        );
        AmlRecord {
            risk_level: risk_level_for(score),
            risk_score: score as u64,
            last_assessed_at: now,
            ..self
        }
    }

    /// The record after a transaction of `amount` was recorded.
    pub open spec fn after_transaction(self, amount: u64) -> AmlRecord {
        AmlRecord {
            transaction_count: (self.transaction_count + 1) as u64,
            total_volume: (self.total_volume + amount) as u64,
            suspicious_flags: flags_after_check(self.suspicious_flags, amount as int),
            ..self
        }
    }

    /// What a read reports of this record.
    pub open spec fn snapshot(self) -> AmlSnapshot {
        AmlSnapshot {
            risk_level: self.risk_level,
            risk_score: self.risk_score,
            last_assessed_at: self.last_assessed_at,
        }
    }
}

/// The engine that exclusively owns one account's AML record. The record it
/// holds is always well formed.
pub struct AmlRiskEngine {
    record: AmlRecord,
}

impl View for AmlRiskEngine {
    type V = AmlRecord;

    closed spec fn view(&self) -> AmlRecord {
        self.record
    }
}

impl AmlRiskEngine {
    #[verifier::type_invariant]
    closed spec fn score_within_cap(self) -> bool {
        self.record.wf()
    }

    /// Starts the engine of an account with no history.
    pub fn new() -> (engine: Self)
        ensures
            engine@ == AmlRecord::initial(),
    {
        AmlRiskEngine {
            record: AmlRecord {
                risk_level: AmlRiskLevel::Low,
                risk_score: 0,
                last_assessed_at: 0,
                transaction_count: 0,
                total_volume: 0,
                suspicious_flags: 0,
            },
        }
    }

    /// Resumes the engine from a stored record, which must be well formed.
    pub fn from_record(record: AmlRecord) -> (engine: Option<Self>)
        ensures
            engine is Some <==> record.wf(),
            engine matches Some(e) ==> e@ == record,
    {
        if record.risk_score <= MAX_RISK_SCORE {
            Some(AmlRiskEngine { record })
        } else {
            None
        }
    }

    /// The record as it stands.
    pub fn record(&self) -> (record: AmlRecord)
        ensures
            record == self@,
            record.wf(),
    {
        proof {
            use_type_invariant(self);
        }
        self.record
    }

    /// Assesses one transaction at time `now` and returns the new level and
    /// score.
    ///
    /// The score grows by 100 for an amount of 10,000 or more and by ten times
    /// the counterparty risk, and stops at the cap. The level is then read off
    /// the score alone. The transaction type does not enter the score.
    pub fn assess(
        &mut self,
        transaction_amount: u64,
        transaction_type: u64,
        counterparty_risk: u64,
        now: Timestamp,
    ) -> (assessment: (AmlRiskLevel, u64))
        ensures
            final(self)@ == old(self)@.after_assess(transaction_amount, counterparty_risk, now),
            assessment.0 == final(self)@.risk_level,
            assessment.1 == final(self)@.risk_score,
            assessment.1 == assessed_score(
                old(self)@.risk_score as int,
                transaction_amount as int,
                counterparty_risk as int,
            ),
            assessment.0 == risk_level_for(assessment.1 as int),
            final(self)@.wf(),
    {
        proof {
            use_type_invariant(&*self);
        }
        let penalty: u64 = if transaction_amount >= LARGE_TRANSACTION_THRESHOLD {
            LARGE_TRANSACTION_PENALTY
        } else {
            0
        };
        let score: u64 = if counterparty_risk > MAX_RISK_SCORE / COUNTERPARTY_RISK_WEIGHT {
            MAX_RISK_SCORE
        } else {
            let raw: u64 = self.record.risk_score + penalty + counterparty_risk
                * COUNTERPARTY_RISK_WEIGHT;
            if raw > MAX_RISK_SCORE {
                MAX_RISK_SCORE
            } else {
                raw
            }
        };
        let level = AmlRiskLevel::from_score(score);
        self.record = AmlRecord {
            risk_level: level,
            risk_score: score,
            last_assessed_at: now,
            transaction_count: self.record.transaction_count,
            total_volume: self.record.total_volume,
            suspicious_flags: self.record.suspicious_flags,
        };
        (level, score)
    }

    /// Reads the level, the score and the time of the last assessment.
    pub fn status(&self) -> (snapshot: AmlSnapshot)
        ensures
            snapshot == self@.snapshot(),
            snapshot.risk_score <= MAX_RISK_SCORE,
    {
        proof {
            use_type_invariant(self);
        }
        AmlSnapshot {
            risk_level: self.record.risk_level,
            risk_score: self.record.risk_score,
            last_assessed_at: self.record.last_assessed_at,
        }
    }

    /// Overrides score and level by hand, at time `now`. It always succeeds
    /// and asks for no authorization; a score above the cap is stored as the
    /// cap. This is the only way to the level `Critical`.
    pub fn update_risk_score(
        &mut self,
        new_score: u64,
        new_level: AmlRiskLevel,
        now: Timestamp,
    ) -> (updated: bool)
        ensures
            updated,
            final(self)@ == (AmlRecord {
                risk_level: new_level,
                risk_score: if new_score > MAX_RISK_SCORE {
                    MAX_RISK_SCORE
                } else {
                    new_score
                },
                last_assessed_at: now,
                ..old(self)@
            }),
            final(self)@.wf(),
    {
        let score: u64 = if new_score > MAX_RISK_SCORE {
            MAX_RISK_SCORE
        } else {
            new_score
        };
        self.record = AmlRecord {
            risk_level: new_level,
            risk_score: score,
            last_assessed_at: now,
            transaction_count: self.record.transaction_count,
            total_volume: self.record.total_volume,
            suspicious_flags: self.record.suspicious_flags,
        };
        true
    }

    /// Records one transaction: counts it, adds its amount to the volume and
    /// checks it for suspicious patterns. It always reports success.
    pub fn record_transaction(
        &mut self,
        amount: u64,
        transaction_type: u64,
        counterparty_hash: u64,
    ) -> (recorded: bool)
        requires
            old(self)@.transaction_count < u64::MAX,
            old(self)@.total_volume + amount <= u64::MAX,
        ensures
            recorded,
            final(self)@ == old(self)@.after_transaction(amount),
            final(self)@.transaction_count == old(self)@.transaction_count + 1,
            final(self)@.total_volume == old(self)@.total_volume + amount,
            final(self)@.wf(),
    {
        proof {
            use_type_invariant(&*self);
        }
        self.record = AmlRecord {
            risk_level: self.record.risk_level,
            risk_score: self.record.risk_score,
            last_assessed_at: self.record.last_assessed_at,
            transaction_count: self.record.transaction_count + 1,
            total_volume: self.record.total_volume + amount,
            suspicious_flags: self.record.suspicious_flags,
        };
        self.suspicious_check(amount, transaction_type, counterparty_hash);
        true
    }

    /// Checks one transaction for suspicious patterns and returns whether it
    /// is suspicious: it is when its amount is round. A suspicious
    /// transaction sets the round-amount bit of the flags; no check ever
    /// clears a bit.
    pub fn suspicious_check(
        &mut self,
        amount: u64,
        transaction_type: u64,
        counterparty_hash: u64,
    ) -> (suspicious: bool)
        ensures
            suspicious == is_round_amount(amount as int),
            final(self)@ == (AmlRecord {
                suspicious_flags: flags_after_check(old(self)@.suspicious_flags, amount as int),
                ..old(self)@
            }),
            final(self)@.wf(),
    {
        proof {
            use_type_invariant(&*self);
        }
        if amount % ROUND_AMOUNT_UNIT == 0 {
            self.record = AmlRecord {
                risk_level: self.record.risk_level,
                risk_score: self.record.risk_score,
                last_assessed_at: self.record.last_assessed_at,
                transaction_count: self.record.transaction_count,
                total_volume: self.record.total_volume,
                suspicious_flags: self.record.suspicious_flags | ROUND_AMOUNT_FLAG,
            };
            true
        } else {
            false
        }
    }

    /// Reads the number of recorded transactions and their total volume.
    pub fn stats(&self) -> (stats: (u64, u64))
        ensures
            stats.0 == self@.transaction_count,
            stats.1 == self@.total_volume,
    {
        (self.record.transaction_count, self.record.total_volume)
    }

    /// Reads the suspicious flags.
    pub fn suspicious_flags(&self) -> (flags: u64)
        ensures
            flags == self@.suspicious_flags,
    {
        self.record.suspicious_flags
    }
}

} // verus!
