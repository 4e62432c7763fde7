//! The contracts of one metering direction: which of them is in force at an
//! instant, and whether together they cover time without gap or overlap.

use vstd::prelude::*;
use crate::contract::{ContractConfig, EnergyConfigError};
use crate::instant::UtcTime;
use crate::models::MeasurementType;

verus! {

/// What is wrong with a list of contracts. Contracts are named by their
/// position in the list.
#[derive(Clone, Copy, Debug, PartialEq, Eq, Structural)]
pub enum ConfigValidationError {
    /// The contract `earlier` has not ended when `later`, the next to
    /// start, begins.
    OverlappingContracts { earlier: usize, later: usize },
    /// The contract `later`, the next to start after `earlier`, does not
    /// begin in the second after `earlier` ends.
    GapBetweenContracts { earlier: usize, later: usize },
    /// The contract at `contract` lacks a fee that its type needs.
    MissingFees { contract: usize, error: EnergyConfigError },
}

impl ConfigValidationError {
    /// What is said of the fault.
    pub open spec fn spec_message(self) -> Seq<char> {
        match self {
            ConfigValidationError::OverlappingContracts { .. } => "Overlapping contracts detected"@,
            ConfigValidationError::GapBetweenContracts { .. } => "Gap between contracts detected"@,
            ConfigValidationError::MissingFees { error, .. } => error.spec_message(),
        }
    }

    /// What is said of the fault.
    pub fn message(&self) -> (text: String)
        ensures
            text@ == self.spec_message(),
    {
        match self {
            ConfigValidationError::OverlappingContracts { .. } => {
                "Overlapping contracts detected".to_owned()
            },
            ConfigValidationError::GapBetweenContracts { .. } => {
                "Gap between contracts detected".to_owned()
            },
            ConfigValidationError::MissingFees { error, .. } => error.message(),
        }
    }
}

/// What is wrong with the settings: the direction whose contracts are at
/// fault, and the fault.
#[derive(Clone, Copy, Debug, PartialEq, Eq, Structural)]
pub struct SettingsValidationError {
    /// The direction whose list of contracts is at fault.
    pub direction: MeasurementType,
    /// The fault in that list.
    pub error: ConfigValidationError,
}

/// The contracts of one metering direction.
#[derive(Clone, Debug, PartialEq, Eq)]
pub struct ContractsConfig {
    /// The contracts, in the order in which they were configured.
    pub contracts: Vec<ContractConfig>,
}

/// The contracts of both metering directions.
#[derive(Clone, Debug, PartialEq, Eq)]
pub struct SettingsConfig {
    /// The contracts for energy taken from the grid.
    pub consumption: ContractsConfig,
    /// The contracts for energy fed into the grid.
    pub production: ContractsConfig,
}

/// Whether the contract at `i` is the only one in force at the instant
/// `time`.
pub open spec fn sole_match(contracts: Seq<ContractConfig>, time: int, i: int) -> bool {
    &&& 0 <= i < contracts.len()
    &&& contracts[i].matches_at(time)
    &&& forall|j: int| 0 <= j < contracts.len() && #[trigger] contracts[j].matches_at(time) ==> j == i
}

/// The number of the first `n` contracts that are in force at the instant
/// `time`.
pub open spec fn count_matching(contracts: Seq<ContractConfig>, time: int, n: int) -> int
    decreases n,
{
    if n <= 0 {
        0
    } else if contracts[n - 1].matches_at(time) {
        count_matching(contracts, time, n - 1) + 1
    } else {
        count_matching(contracts, time, n - 1)
    }
}

/// Whether the contract at `i` is the only one of the first `n` that is in
/// force at the instant `time`.
pub open spec fn sole_among(contracts: Seq<ContractConfig>, time: int, n: int, i: int) -> bool {
    &&& 0 <= i < n
    &&& contracts[i].matches_at(time)
    &&& forall|j: int| 0 <= j < n && #[trigger] contracts[j].matches_at(time) ==> j == i
}

/// A contract is the only one in force exactly where one contract is in
/// force: the lookup of a contract fails where none or several are.
pub proof fn lemma_sole_match_counts_one(contracts: Seq<ContractConfig>, time: int, n: int)
    requires
        0 <= n <= contracts.len(),
    ensures
        0 <= count_matching(contracts, time, n) <= n,
        count_matching(contracts, time, n) == 0 <==> forall|j: int|
            0 <= j < n ==> !#[trigger] contracts[j].matches_at(time),
        count_matching(contracts, time, n) == 1 <==> exists|i: int| #[trigger]
            sole_among(contracts, time, n, i),
        n == contracts.len() ==> (count_matching(contracts, time, n) == 1 <==> exists|i: int|
            sole_match(contracts, time, i)),
    decreases n,
{
    if n > 0 {
        lemma_sole_match_counts_one(contracts, time, n - 1);
        let before = count_matching(contracts, time, n - 1);
        if contracts[n - 1].matches_at(time) {
            if before == 0 {
                assert(sole_among(contracts, time, n, n - 1));
            } else {
                assert forall|i: int| !sole_among(contracts, time, n, i) by {
                    if sole_among(contracts, time, n, i) {
                        assert(i == n - 1);
                        let m = choose|m: int| 0 <= m < n - 1 && contracts[m].matches_at(time);
                        assert(contracts[m].matches_at(time));
                    }
                }
            }
        } else {
            if before == 1 {
                let i = choose|i: int| #[trigger] sole_among(contracts, time, n - 1, i);
                assert(sole_among(contracts, time, n, i));
            } else {
                assert forall|i: int| !sole_among(contracts, time, n, i) by {
                    if sole_among(contracts, time, n, i) {
                        assert(sole_among(contracts, time, n - 1, i));
                    }
                }
            }
        }
    }
    if n == contracts.len() {
        if exists|i: int| sole_match(contracts, time, i) {
            let i = choose|i: int| sole_match(contracts, time, i);
            assert(sole_among(contracts, time, n, i));
        }
        if exists|i: int| #[trigger] sole_among(contracts, time, n, i) {
            let i = choose|i: int| #[trigger] sole_among(contracts, time, n, i);
            assert(sole_match(contracts, time, i));
        }
    }
}

/// Whether the contract at `i` comes before the contract at `j` when the
/// contracts are put in the order of their starts. Contracts that start at
/// the same instant keep the order of the list.
pub open spec fn precedes(contracts: Seq<ContractConfig>, i: int, j: int) -> bool {
    ||| contracts[i].start_time@ < contracts[j].start_time@
    ||| (contracts[i].start_time@ == contracts[j].start_time@ && i < j)
}

/// Whether the contract at `j` is the next after the contract at `i` in the
/// order of starts: it comes after `i` and no contract comes between them.
pub open spec fn follows(contracts: Seq<ContractConfig>, i: int, j: int) -> bool {
    &&& 0 <= i < contracts.len()
    &&& 0 <= j < contracts.len()
    &&& precedes(contracts, i, j)
    &&& forall|k: int|
        0 <= k < contracts.len() ==> !(#[trigger] precedes(contracts, i, k) && precedes(
            contracts,
            k,
            j,
        ))
}

/// Whether `later` begins in the second after `earlier` ends.
pub open spec fn contiguous(earlier: ContractConfig, later: ContractConfig) -> bool {
    earlier.end_time matches Some(end) && end@ + 1 == later.start_time@
}

/// Whether `earlier` is still in force when `later` begins: it has no end,
/// or its end is not before the start of `later`.
pub open spec fn overlapping(earlier: ContractConfig, later: ContractConfig) -> bool {
    match earlier.end_time {
        Some(end) => end@ >= later.start_time@,
        None => true,
    }
}

/// What is wrong between the contract at `i` and the contract at `j` that
/// follows it.
pub open spec fn pair_error(contracts: Seq<ContractConfig>, i: int, j: int) -> ConfigValidationError {
    if overlapping(contracts[i], contracts[j]) {
        ConfigValidationError::OverlappingContracts { earlier: i as usize, later: j as usize }
    } else {
        ConfigValidationError::GapBetweenContracts { earlier: i as usize, later: j as usize }
    }
}

/// Whether `i` and the contract `j` that follows it are the first two
/// contracts, in the order of starts, that are not contiguous.
pub open spec fn first_fault(contracts: Seq<ContractConfig>, i: int, j: int) -> bool {
    &&& follows(contracts, i, j)
    &&& !contiguous(contracts[i], contracts[j])
    &&& forall|a: int, b: int|
        #[trigger] follows(contracts, a, b) && !contiguous(contracts[a], contracts[b]) ==> a == i
            || precedes(contracts, i, a)
}

/// Whether `verdict` is what the check of the windows says of `contracts`:
/// success where each contract begins in the second after the one before it
/// in the order of starts ends, and otherwise the fault between the first
/// two contracts in that order that do not.
pub open spec fn is_times_verdict(
    contracts: Seq<ContractConfig>,
    verdict: Result<(), ConfigValidationError>,
) -> bool {
    match verdict {
        Ok(_) => forall|i: int, j: int| #[trigger]
            follows(contracts, i, j) ==> contiguous(contracts[i], contracts[j]),
        Err(error) => exists|i: int, j: int| #[trigger]
            first_fault(contracts, i, j) && error == pair_error(contracts, i, j),
    }
}

/// Whether `verdict` is what the check of the fees says of `contracts`:
/// success where every contract names the fees that its type needs, and
/// otherwise the fault of the first contract in the list that does not.
pub open spec fn is_fees_verdict(
    contracts: Seq<ContractConfig>,
    verdict: Result<(), ConfigValidationError>,
) -> bool {
    match verdict {
        Ok(_) => forall|i: int|
            0 <= i < contracts.len() ==> (#[trigger] contracts[i].spec_validate_energy()) is Ok,
        Err(ConfigValidationError::MissingFees { contract, error }) => {
            &&& contract < contracts.len()
            &&& contracts[contract as int].spec_validate_energy() == Err::<(), EnergyConfigError>(
                error,
            )
            &&& forall|i: int|
                0 <= i < contract ==> (#[trigger] contracts[i].spec_validate_energy()) is Ok
        },
        Err(_) => false,
    }
}

/// Whether `verdict` is what validation says of `contracts`: the fault of
/// the windows where there is one, else the fault of the fees where there is
/// one, else success.
pub open spec fn is_verdict(
    contracts: Seq<ContractConfig>,
    verdict: Result<(), ConfigValidationError>,
) -> bool {
    ||| verdict is Err && is_times_verdict(contracts, verdict)
    ||| is_times_verdict(contracts, Ok(())) && is_fees_verdict(contracts, verdict)
}

/// Decides [`precedes`] for two contracts of a list.
fn comes_before(contracts: &Vec<ContractConfig>, i: usize, j: usize) -> (before: bool)
    requires
        i < contracts.len(),
        j < contracts.len(),
    ensures
        before == precedes(contracts@, i as int, j as int),
{
    let a: i64 = contracts[i].start_time.timestamp();
    let b: i64 = contracts[j].start_time.timestamp();
    a < b || (a == b && i < j)
}

/// Finds the contract that follows the contract at `i` in the order of
/// starts.
fn next_to_start(contracts: &Vec<ContractConfig>, i: usize) -> (next: Option<usize>)
    requires
        i < contracts.len(),
    ensures
        match next {
            Some(j) => follows(contracts@, i as int, j as int),
            None => forall|j: int| !follows(contracts@, i as int, j),
        },
{
    let mut next: Option<usize> = None;
    let mut k: usize = 0;
    while k < contracts.len()
        invariant
            i < contracts.len(),
            k <= contracts.len(),
            match next {
                Some(j) => {
                    &&& j < k
                    &&& precedes(contracts@, i as int, j as int)
                    &&& forall|m: int|
                        0 <= m < k && #[trigger] precedes(contracts@, i as int, m) ==> m == j
                            || precedes(contracts@, j as int, m)
                },
                None => forall|m: int| 0 <= m < k ==> !#[trigger] precedes(contracts@, i as int, m),
            },
        decreases contracts.len() - k,
    {
        if comes_before(contracts, i, k) {
            let closer: bool = match next {
                Some(j) => comes_before(contracts, k, j),
                None => true,
            };
            if closer {
                next = Some(k);
            }
        }
        k = k + 1;
    }
    proof {
        match next {
            Some(j) => {
                assert forall|m: int| 0 <= m < contracts@.len() implies !(#[trigger] precedes(
                    contracts@,
                    i as int,
                    m,
                ) && precedes(contracts@, m, j as int)) by {
                    if precedes(contracts@, i as int, m) {
                        assert(m == j || precedes(contracts@, j as int, m));
                    }
                }
            },
            None => {
                assert forall|j: int| !follows(contracts@, i as int, j) by {
                    if 0 <= j < contracts@.len() {
                        assert(!precedes(contracts@, i as int, j));
                    }
                }
            },
        }
    }
    next
}

/// At most one contract follows a given contract in the order of starts.
pub proof fn lemma_follows_unique(contracts: Seq<ContractConfig>, i: int, j: int, k: int)
    requires
        follows(contracts, i, j),
        follows(contracts, i, k),
    ensures
        j == k,
{
    if j != k {
        if precedes(contracts, j, k) {
            assert(precedes(contracts, i, j) && precedes(contracts, j, k));
        } else {
            assert(precedes(contracts, k, j));
            assert(precedes(contracts, i, k) && precedes(contracts, k, j));
        }
    }
}

/// The windows of a list of contracts have one outcome: whatever
/// [`is_times_verdict`] holds of is the same.
pub proof fn lemma_times_verdict_unique(
    contracts: Seq<ContractConfig>,
    first: Result<(), ConfigValidationError>,
    second: Result<(), ConfigValidationError>,
)
    requires
        is_times_verdict(contracts, first),
        is_times_verdict(contracts, second),
    ensures
        first == second,
{
    match (first, second) {
        (Ok(a), Ok(b)) => {
            assert(a == b);
        },
        (Err(e1), Err(e2)) => {
            let (i1, j1) = choose|i: int, j: int| #[trigger]
                first_fault(contracts, i, j) && e1 == pair_error(contracts, i, j);
            let (i2, j2) = choose|i: int, j: int| #[trigger]
                first_fault(contracts, i, j) && e2 == pair_error(contracts, i, j);
            assert(follows(contracts, i2, j2) && !contiguous(contracts[i2], contracts[j2]));
            assert(follows(contracts, i1, j1) && !contiguous(contracts[i1], contracts[j1]));
            assert(i1 == i2);
            lemma_follows_unique(contracts, i1, j1, j2);
        },
        (Ok(_), Err(e2)) => {
            let (i2, j2) = choose|i: int, j: int| #[trigger]
                first_fault(contracts, i, j) && e2 == pair_error(contracts, i, j);
            assert(follows(contracts, i2, j2));
        },
        (Err(e1), Ok(_)) => {
            let (i1, j1) = choose|i: int, j: int| #[trigger]
                first_fault(contracts, i, j) && e1 == pair_error(contracts, i, j);
            assert(follows(contracts, i1, j1));
        },
    }
}

/// Among the first `k` contracts, one that comes after the contract at `i`
/// in the order of starts comes before all others that do.
proof fn lemma_nearest_successor(contracts: Seq<ContractConfig>, i: int, k: int) -> (nearest: int)
    requires
        0 <= i < contracts.len(),
        0 <= k <= contracts.len(),
        exists|m: int| 0 <= m < k && precedes(contracts, i, m),
    ensures
        0 <= nearest < k,
        precedes(contracts, i, nearest),
        forall|m: int|
            0 <= m < k && #[trigger] precedes(contracts, i, m) ==> m == nearest || precedes(
                contracts,
                nearest,
                m,
            ),
    decreases k,
{
    let last = k - 1;
    if exists|m: int| 0 <= m < last && precedes(contracts, i, m) {
        let before = lemma_nearest_successor(contracts, i, last);
        if precedes(contracts, i, last) && precedes(contracts, last, before) {
            last
        } else {
            before
        }
    } else {
        let m = choose|m: int| 0 <= m < k && precedes(contracts, i, m);
        assert(m == last);
        last
    }
}

/// Where the windows are valid, no instant lies in two of them: the lookup
/// of a contract then fails only for an instant that no contract covers.
pub proof fn lemma_valid_windows_do_not_overlap(
    contracts: Seq<ContractConfig>,
    time: int,
    i: int,
    j: int,
)
    requires
        is_times_verdict(contracts, Ok(())),
        0 <= i < contracts.len(),
        0 <= j < contracts.len(),
        contracts[i].matches_at(time),
        contracts[j].matches_at(time),
    ensures
        i == j,
{
    if i != j {
        let (a, b) = if precedes(contracts, i, j) {
            (i, j)
        } else {
            (j, i)
        };
        assert(precedes(contracts, a, b));
        let next = lemma_nearest_successor(contracts, a, contracts.len() as int);
        assert(follows(contracts, a, next)) by {
            assert forall|k: int| 0 <= k < contracts.len() implies !(#[trigger] precedes(
                contracts,
                a,
                k,
            ) && precedes(contracts, k, next)) by {
                if precedes(contracts, a, k) {
                    assert(k == next || precedes(contracts, next, k));
                }
            }
        }
        assert(contiguous(contracts[a], contracts[next]));
        assert(next == b || precedes(contracts, next, b));
    }
}

/// Where the windows are valid and an instant lies in one of them, the
/// contract at that position is the only one in force.
pub proof fn lemma_valid_windows_have_sole_matches(
    contracts: Seq<ContractConfig>,
    time: int,
    i: int,
)
    requires
        is_times_verdict(contracts, Ok(())),
        0 <= i < contracts.len(),
        contracts[i].matches_at(time),
    ensures
        sole_match(contracts, time, i),
{
    assert forall|j: int| 0 <= j < contracts.len() && #[trigger] contracts[j].matches_at(
        time,
    ) implies j == i by {
        lemma_valid_windows_do_not_overlap(contracts, time, i, j);
    }
}

/// Of two contracts of which the first starts first, the windows are valid
/// exactly where the second begins in the second after the first ends: a
/// gap of a second is a fault, and so is an overlap of a second.
pub proof fn lemma_two_contracts(earlier: ContractConfig, later: ContractConfig)
    requires
        earlier.start_time@ < later.start_time@,
    ensures
        is_times_verdict(seq![earlier, later], Ok(())) <==> contiguous(earlier, later),
        !contiguous(earlier, later) ==> is_times_verdict(
            seq![earlier, later],
            Err(pair_error(seq![earlier, later], 0, 1)),
        ),
{
    let contracts = seq![earlier, later];
    assert(contracts[0] == earlier && contracts[1] == later);
    assert(precedes(contracts, 0, 1));
    assert(follows(contracts, 0, 1)) by {
        assert forall|k: int| 0 <= k < contracts.len() implies !(#[trigger] precedes(
            contracts,
            0,
            k,
        ) && precedes(contracts, k, 1)) by {}
    }
    assert forall|a: int, b: int| #[trigger] follows(contracts, a, b) implies a == 0 && b == 1 by {
        if a == 1 {
            assert(!precedes(contracts, 1, 0));
            assert(!precedes(contracts, 1, 1));
        }
    }
    if !contiguous(earlier, later) {
        assert(first_fault(contracts, 0, 1));
    }
}

impl ContractsConfig {
    /// The contracts `contracts`, in that order.
    pub fn new(contracts: Vec<ContractConfig>) -> (config: ContractsConfig)
        ensures
            config.contracts@ == contracts@,
    {
        ContractsConfig { contracts }
    }

    /// The contract in force at `time`: the single contract whose window
    /// holds `time`. `None` where no contract or more than one is in force;
    /// the caller then leaves the instant without fees and does not take
    /// them to be zero.
    pub fn get_contract(&self, time: UtcTime) -> (contract: Option<&ContractConfig>)
        ensures
            match contract {
                Some(found) => exists|i: int| #[trigger]
                    sole_match(self.contracts@, time@, i) && *found == self.contracts@[i],
                None => forall|i: int| !sole_match(self.contracts@, time@, i),
            },
    {
        match self.find_contract(time) {
            Some(i) => Some(&self.contracts[i]),
            None => None,
        }
    }

    /// The number of contracts in force at `time`: what a caller reports
    /// where [`ContractsConfig::get_contract`] finds no single one.
    pub fn count_matches(&self, time: UtcTime) -> (count: usize)
        ensures
            count == count_matching(self.contracts@, time@, self.contracts@.len() as int),
    {
        let mut count: usize = 0;
        let mut k: usize = 0;
        while k < self.contracts.len()
            invariant
                k <= self.contracts.len(),
                count <= k,
                count == count_matching(self.contracts@, time@, k as int),
            decreases self.contracts.len() - k,
        {
            if self.contracts[k].is_match(time) {
                count = count + 1;
            }
            k = k + 1;
        }
        count
    }

    /// The position of the contract in force at `time`; see
    /// [`ContractsConfig::get_contract`].
    pub fn find_contract(&self, time: UtcTime) -> (position: Option<usize>)
        ensures
            match position {
                Some(i) => sole_match(self.contracts@, time@, i as int),
                None => forall|i: int| !sole_match(self.contracts@, time@, i),
            },
    {
        let mut found: Option<usize> = None;
        let mut several: bool = false;
        let mut k: usize = 0;
        while k < self.contracts.len()
            invariant
                k <= self.contracts.len(),
                several ==> exists|a: int, b: int|
                    0 <= a < b < k && #[trigger] self.contracts@[a].matches_at(time@)
                        && #[trigger] self.contracts@[b].matches_at(time@),
                !several ==> match found {
                    Some(i) => {
                        &&& i < k
                        &&& self.contracts@[i as int].matches_at(time@)
                        &&& forall|j: int|
                            0 <= j < k && #[trigger] self.contracts@[j].matches_at(time@) ==> j
                                == i
                    },
                    None => forall|j: int|
                        0 <= j < k ==> !#[trigger] self.contracts@[j].matches_at(time@),
                },
            decreases self.contracts.len() - k,
        {
            if self.contracts[k].is_match(time) {
                if found.is_some() {
                    several = true;
                } else {
                    found = Some(k);
                }
            }
            k = k + 1;
        }
        if several {
            proof {
                let (a, b) = choose|a: int, b: int|
                    0 <= a < b < k && #[trigger] self.contracts@[a].matches_at(time@)
                        && #[trigger] self.contracts@[b].matches_at(time@);
                assert forall|i: int| !sole_match(self.contracts@, time@, i) by {
                    if sole_match(self.contracts@, time@, i) {
                        assert(self.contracts@[a].matches_at(time@));
                        assert(self.contracts@[b].matches_at(time@));
                    }
                }
            }
            None
        } else {
            found
        }
    }

    /// Checks that the windows of the contracts follow each other without
    /// gap or overlap: put in the order of their starts, each contract but
    /// the last ends in the second before the next begins. The fault that is
    /// reported is the one between the first two contracts in that order that
    /// do not.
    pub fn validate_contract_times(&self) -> (verdict: Result<(), ConfigValidationError>)
        ensures
            is_times_verdict(self.contracts@, verdict),
    {
        let mut fault: Option<(usize, usize)> = None;
        let mut i: usize = 0;
        while i < self.contracts.len()
            invariant
                i <= self.contracts.len(),
                match fault {
                    Some((a, b)) => {
                        &&& a < i
                        &&& follows(self.contracts@, a as int, b as int)
                        &&& !contiguous(self.contracts@[a as int], self.contracts@[b as int])
                        &&& forall|c: int, d: int|
                            0 <= c < i && #[trigger] follows(self.contracts@, c, d) && !contiguous(
                                self.contracts@[c],
                                self.contracts@[d],
                            ) ==> c == a || precedes(self.contracts@, a as int, c)
                    },
                    None => forall|c: int, d: int|
                        0 <= c < i && #[trigger] follows(self.contracts@, c, d) ==> contiguous(
                            self.contracts@[c],
                            self.contracts@[d],
                        ),
                },
            decreases self.contracts.len() - i,
        {
            match next_to_start(&self.contracts, i) {
                Some(j) => {
                    proof {
                        assert forall|d: int| #[trigger]
                            follows(self.contracts@, i as int, d) implies d == j by {
                            lemma_follows_unique(self.contracts@, i as int, d, j as int);
                        }
                    }
                    if !self.begins_after(i, j) {
                        let earlier: bool = match fault {
                            Some((a, _)) => comes_before(&self.contracts, i, a),
                            None => true,
                        };
                        if earlier {
                            fault = Some((i, j));
                        }
                    }
                },
                None => {},
            }
            i = i + 1;
        }
        match fault {
            Some((a, b)) => {
                let error = if self.still_runs(a, b) {
                    ConfigValidationError::OverlappingContracts { earlier: a, later: b }
                } else {
                    ConfigValidationError::GapBetweenContracts { earlier: a, later: b }
                };
                proof {
                    assert(first_fault(self.contracts@, a as int, b as int));
                }
                Err(error)
            },
            None => Ok(()),
        }
    }

    /// Decides [`contiguous`] for two contracts of the list.
    fn begins_after(&self, i: usize, j: usize) -> (contiguous_pair: bool)
        requires
            i < self.contracts.len(),
            j < self.contracts.len(),
        ensures
            contiguous_pair == contiguous(self.contracts@[i as int], self.contracts@[j as int]),
    {
        match self.contracts[i].end_time {
            Some(end) => {
                let start: i64 = self.contracts[j].start_time.timestamp();
                // No start lies at the lowest number, so the difference is
                // taken rather than the sum.
                end.timestamp() == start - 1
            },
            None => false,
        }
    }

    /// Decides [`overlapping`] for two contracts of the list.
    fn still_runs(&self, i: usize, j: usize) -> (overlap: bool)
        requires
            i < self.contracts.len(),
            j < self.contracts.len(),
        ensures
            overlap == overlapping(self.contracts@[i as int], self.contracts@[j as int]),
    {
        match self.contracts[i].end_time {
            Some(end) => end.timestamp() >= self.contracts[j].start_time.timestamp(),
            None => true,
        }
    }

    /// Checks that every contract names the fees that its type needs.
    pub fn validate_fees(&self) -> (verdict: Result<(), ConfigValidationError>)
        ensures
            is_fees_verdict(self.contracts@, verdict),
    {
        let mut i: usize = 0;
        while i < self.contracts.len()
            invariant
                i <= self.contracts.len(),
                forall|k: int|
                    0 <= k < i ==> (#[trigger] self.contracts@[k].spec_validate_energy()) is Ok,
            decreases self.contracts.len() - i,
        {
            match self.contracts[i].validate_energy() {
                Ok(_) => {},
                Err(error) => {
                    return Err(ConfigValidationError::MissingFees { contract: i, error });
                },
            }
            i = i + 1;
        }
        Ok(())
    }

    /// Validates the contracts: first their windows, then their fees.
    pub fn validate(&self) -> (verdict: Result<(), ConfigValidationError>)
        ensures
            is_verdict(self.contracts@, verdict),
    {
        match self.validate_contract_times() {
            Ok(_) => self.validate_fees(),
            Err(error) => Err(error),
        }
    }
}

impl SettingsConfig {
    /// Validates the contracts of both directions, those for consumption
    /// first.
    pub fn validate(&self) -> (verdict: Result<(), SettingsValidationError>)
        ensures
            match verdict {
                Ok(_) => is_verdict(self.consumption.contracts@, Ok(())) && is_verdict(
                    self.production.contracts@,
                    Ok(()),
                ),
                Err(fault) => match fault.direction {
                    MeasurementType::Consumption => is_verdict(
                        self.consumption.contracts@,
                        Err(fault.error),
                    ),
                    MeasurementType::Production => is_verdict(
                        self.consumption.contracts@,
                        Ok(()),
                    ) && is_verdict(self.production.contracts@, Err(fault.error)),
                },
            },
    {
        match self.consumption.validate() {
            Ok(_) => {},
            Err(error) => {
                return Err(
                    SettingsValidationError { direction: MeasurementType::Consumption, error },
                );
            },
        }
        match self.production.validate() {
            Ok(_) => Ok(()),
            Err(error) => Err(
                SettingsValidationError { direction: MeasurementType::Production, error },
            ),
        }
    }
}

} // verus!
