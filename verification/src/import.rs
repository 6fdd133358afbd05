//! The block-import pipeline: an ordered list of stages in front of the chain
//! store. Every stage may object to a block before it is stored, and adds its
//! own record once it is.
//!
//! A block is known by a number that stands for the hash of its header. What
//! only a cryptographic check can tell (whose signatures a justification
//! carries) arrives here as a plain value.
use vstd::prelude::*;

verus! {

/// The hash of a block's header, as a number.
pub type BlockId = u64;

/// The slot digest of a header: the slot a block was made for, and its author's
/// place in the authority set.
#[derive(Clone, Copy, Debug, PartialEq, Eq)]
pub struct SlotClaim {
    pub slot: u64,
    pub authority_index: u32,
}

/// What the pipeline reads of a block's header.
#[derive(Clone, Copy, Debug, PartialEq, Eq)]
pub struct Header {
    pub id: BlockId,
    pub parent: BlockId,
    pub number: u64,
    /// The identifier that the block has on the external chain.
    pub external: u64,
    pub claim: Option<SlotClaim>,
    /// The change of the authority set that the block announces: how many
    /// authorities the next epoch has.
    pub next_authorities: Option<u32>,
}

/// Where a block comes from.
#[derive(Clone, Copy, Debug, PartialEq, Eq)]
pub enum BlockOrigin {
    NetworkPeer,
    Own,
    File,
}

/// How the head of the chain is chosen once a block is stored.
#[derive(Clone, Copy, Debug, PartialEq, Eq)]
pub enum ForkChoiceStrategy {
    /// The new block is the head if it is higher than the head.
    LongestChain,
    /// The caller says whether the new block is the head.
    Custom(bool),
}

/// A proof of finality, after its signatures were checked: the round, the block
/// it commits to, and the voting weight of its valid precommits.
#[derive(Clone, Copy, Debug, PartialEq, Eq)]
pub struct Justification {
    pub round: u64,
    pub target: BlockId,
    pub weight: u64,
}

/// One import attempt.
#[derive(Clone, Copy, Debug, PartialEq, Eq)]
pub struct ImportParams {
    pub header: Header,
    pub origin: BlockOrigin,
    pub justification: Option<Justification>,
    pub fork_choice: ForkChoiceStrategy,
}

/// A stage of the pipeline.
#[derive(Clone, Copy, Debug, PartialEq, Eq)]
pub enum Stage {
    /// Notes every stored block for the address-mapping index; never objects.
    Mapping,
    /// Keeps finality: objects to what conflicts with the finalized block, and
    /// to a justification that does not hold.
    Finality,
    /// Checks the slot digest against the epoch's authorities and randomness.
    SlotVerification,
}

/// Why a block is discarded.
#[derive(Clone, Copy, Debug, PartialEq, Eq)]
pub enum DiscardReason {
    /// The header's number is not its parent's number plus one.
    BadNumber,
    /// The header has no slot digest.
    BadDigest,
    /// The epoch of the claimed slot is not known yet.
    EpochDataUnavailable,
    /// The author did not lead the claimed slot.
    NotSlotLeader,
    /// The block does not descend from the finalized block.
    ConflictsWithFinalized,
    /// The justification is for another block or lacks the weight.
    InvalidJustification,
}

/// How an objection is treated.
#[derive(Clone, Copy, Debug, PartialEq, Eq)]
pub enum ErrorClass {
    /// Tried again later.
    Transient,
    /// Discarded for good.
    Rejected,
    /// Fatal to the finality engine.
    ProtocolViolation,
}

/// What a stored block brought about.
#[derive(Clone, Copy, Debug, PartialEq, Eq)]
pub struct ImportedAux {
    /// The block is the new head.
    pub is_new_best: bool,
    /// The block was finalized by its justification.
    pub finalized: bool,
}

/// The outcome of an import attempt.
#[derive(Clone, Copy, Debug, PartialEq, Eq)]
pub enum Verdict {
    Imported(ImportedAux),
    AlreadyInChain,
    Missing(BlockId),
    Discard(DiscardReason),
}

/// A block in the store. `parent_index` is the place of its parent in the
/// store; the genesis block, at place 0, has none and holds 0 there.
#[derive(Clone, Copy, Debug, PartialEq, Eq)]
pub struct StoredBlock {
    pub id: BlockId,
    pub parent: BlockId,
    pub number: u64,
    pub parent_index: usize,
}

/// The authorities and the randomness of one epoch.
#[derive(Clone, Copy, Debug, PartialEq, Eq)]
pub struct Epoch {
    /// How many authorities the ordered set holds.
    pub authorities: u32,
    pub randomness: u64,
}

/// A stored block as the address-mapping index is told of it.
#[derive(Clone, Copy, Debug, PartialEq, Eq)]
pub struct Recorded {
    pub external: u64,
    pub id: BlockId,
    pub number: u64,
}

/// The pipeline and the store as a mathematical value.
pub struct ChainState {
    pub stages: Seq<Stage>,
    /// The stored blocks in the order of their import, the genesis block first.
    pub blocks: Seq<StoredBlock>,
    /// The place of the head.
    pub best: int,
    /// The place of the finalized block.
    pub finalized: int,
    /// The total voting weight of the finality authorities.
    pub total_weight: int,
    pub genesis_slot: int,
    pub epoch_length: int,
    /// The known epochs, from the one that begins at `genesis_slot` on.
    pub epochs: Seq<Epoch>,
    /// What the mapping stage has noted, oldest first.
    pub recorded: Seq<Recorded>,
    /// The finality engine has met a protocol violation and finalizes no more.
    pub voter_halted: bool,
}

impl DiscardReason {
    /// Unknown epoch data is transient, a justification that does not hold
    /// breaks the protocol, and every other reason rejects the block.
    pub open spec fn spec_class(self) -> ErrorClass {
        match self {
            DiscardReason::EpochDataUnavailable => ErrorClass::Transient,
            DiscardReason::InvalidJustification => ErrorClass::ProtocolViolation,
            _ => ErrorClass::Rejected,
        }
    }

    /// The reason in words.
    pub open spec fn spec_reason(self) -> Seq<char> {
        match self {
            DiscardReason::BadNumber => "number does not follow the parent"@,
            DiscardReason::BadDigest => "no slot digest"@,
            DiscardReason::EpochDataUnavailable => "epoch data not available"@,
            DiscardReason::NotSlotLeader => "author does not lead the slot"@,
            DiscardReason::ConflictsWithFinalized => "conflicts with the finalized block"@,
            DiscardReason::InvalidJustification => "invalid justification"@,
        }
    }

    /// The reason as it is logged with the block's identifier.
    pub fn reason(&self) -> (text: &'static str)
        ensures
            text@ == self.spec_reason(),
    {
        match self {
            DiscardReason::BadNumber => "number does not follow the parent",
            DiscardReason::BadDigest => "no slot digest",
            DiscardReason::EpochDataUnavailable => "epoch data not available",
            DiscardReason::NotSlotLeader => "author does not lead the slot",
            DiscardReason::ConflictsWithFinalized => "conflicts with the finalized block",
            DiscardReason::InvalidJustification => "invalid justification",
        }
    }

    /// Whether the block may be tried again, is dropped for good, or shows a
    /// broken protocol.
    pub fn class(&self) -> (class: ErrorClass)
        ensures
            class == self.spec_class(),
    {
        match self {
            DiscardReason::EpochDataUnavailable => ErrorClass::Transient,
            DiscardReason::InvalidJustification => ErrorClass::ProtocolViolation,
            _ => ErrorClass::Rejected,
        }
    }
}

impl Verdict {
    /// A missing parent and unknown epoch data are transient; a stored or known
    /// block is no error.
    pub open spec fn spec_class(self) -> Option<ErrorClass> {
        match self {
            Verdict::Imported(_) => None,
            Verdict::AlreadyInChain => None,
            Verdict::Missing(_) => Some(ErrorClass::Transient),
            Verdict::Discard(reason) => Some(reason.spec_class()),
        }
    }

    /// The class of the error that the verdict stands for, if it is one.
    pub fn class(&self) -> (class: Option<ErrorClass>)
        ensures
            class == self.spec_class(),
    {
        match self {
            Verdict::Imported(_) => None,
            Verdict::AlreadyInChain => None,
            Verdict::Missing(_) => Some(ErrorClass::Transient),
            Verdict::Discard(reason) => Some(reason.class()),
        }
    }
}

/// Whether a block of this id is stored.
pub open spec fn known(blocks: Seq<StoredBlock>, id: BlockId) -> bool {
    exists|i: int| 0 <= i < blocks.len() && (#[trigger] blocks[i]).id == id
}

/// The place of the stored block of this id.
pub open spec fn index_of(blocks: Seq<StoredBlock>, id: BlockId) -> int {
    choose|i: int| 0 <= i < blocks.len() && (#[trigger] blocks[i]).id == id
}

/// The place of the nearest block, from place `i` towards the genesis block,
/// whose number is at most `height`.
pub open spec fn ancestor_at(blocks: Seq<StoredBlock>, i: int, height: int) -> int
    decreases i,
{
    if 0 < i < blocks.len() && blocks[i].number > height && blocks[i].parent_index < i {
        ancestor_at(blocks, blocks[i].parent_index as int, height)
    } else {
        i
    }
}

/// Whether the block at place `i` is the block at place `f` or descends from it.
pub open spec fn descends_from(blocks: Seq<StoredBlock>, i: int, f: int) -> bool {
    ancestor_at(blocks, i, blocks[f].number as int) == f
}

/// The place of the slot's epoch among the epochs.
pub open spec fn epoch_index(s: ChainState, slot: u64) -> int {
    (slot - s.genesis_slot) / s.epoch_length
}

/// Whether the epoch of the slot is known.
pub open spec fn epoch_available(s: ChainState, slot: u64) -> bool {
    s.genesis_slot <= slot && epoch_index(s, slot) < s.epochs.len()
}

/// The place, in the epoch's authority set, of the leader of a slot.
pub open spec fn slot_owner(epoch: Epoch, slot: u64) -> int {
    (epoch.randomness % (epoch.authorities as u64) + slot % (epoch.authorities as u64)) % (
    epoch.authorities as int)
}

/// Whether the justification is for this block and holds more than two thirds
/// of the voting weight.
pub open spec fn justified(s: ChainState, id: BlockId, j: Justification) -> bool {
    j.target == id && 3 * j.weight > 2 * s.total_weight
}

impl ChainState {
    /// The store holds a parent for every block but the first, no id twice, and
    /// numbers that grow by one from parent to child.
    pub open spec fn wf(self) -> bool {
        &&& self.blocks.len() >= 1
        &&& self.blocks[0].number == 0
        &&& forall|i: int|
            0 < i < self.blocks.len() ==> {
                let b = #[trigger] self.blocks[i];
                &&& b.parent_index < i
                &&& self.blocks[b.parent_index as int].id == b.parent
                &&& self.blocks[b.parent_index as int].number + 1 == b.number
            }
        &&& forall|i: int, j: int|
            0 <= i < j < self.blocks.len() ==> (#[trigger] self.blocks[i]).id != (
            #[trigger] self.blocks[j]).id
        &&& 0 <= self.best < self.blocks.len()
        &&& 0 <= self.finalized < self.blocks.len()
        &&& 0 <= self.total_weight <= u64::MAX
        &&& 0 <= self.genesis_slot <= u64::MAX
        &&& 0 < self.epoch_length <= u64::MAX
        &&& forall|e: int| 0 <= e < self.epochs.len() ==> (#[trigger] self.epochs[e]).authorities > 0
    }

    /// The store is one that a machine can hold.
    pub open spec fn fits(self) -> bool {
        self.blocks.len() <= usize::MAX
    }

    /// What one stage holds against a block whose parent is stored.
    pub open spec fn stage_objection(self, stage: Stage, p: ImportParams) -> Option<DiscardReason> {
        match stage {
            Stage::Mapping => None,
            Stage::Finality => if !descends_from(
                self.blocks,
                index_of(self.blocks, p.header.parent),
                self.finalized,
            ) {
                Some(DiscardReason::ConflictsWithFinalized)
            } else if p.justification is Some && !justified(
                self,
                p.header.id,
                p.justification->Some_0,
            ) {
                Some(DiscardReason::InvalidJustification)
            } else {
                None
            },
            Stage::SlotVerification => match p.header.claim {
                None => Some(DiscardReason::BadDigest),
                Some(claim) => if !epoch_available(self, claim.slot) {
                    Some(DiscardReason::EpochDataUnavailable)
                } else if slot_owner(self.epochs[epoch_index(self, claim.slot)], claim.slot)
                    != claim.authority_index {
                    Some(DiscardReason::NotSlotLeader)
                } else {
                    None
                },
            },
        }
    }

    /// The objection of the first stage, from place `from` on, that has one.
    pub open spec fn first_objection(self, from: int, p: ImportParams) -> Option<DiscardReason>
        decreases self.stages.len() - from,
    {
        if 0 <= from < self.stages.len() {
            match self.stage_objection(self.stages[from], p) {
                Some(reason) => Some(reason),
                None => self.first_objection(from + 1, p),
            }
        } else {
            None
        }
    }

    /// Whether the new block becomes the head.
    pub open spec fn becomes_best(self, p: ImportParams) -> bool {
        match p.fork_choice {
            ForkChoiceStrategy::LongestChain => p.header.number > self.blocks[self.best].number,
            ForkChoiceStrategy::Custom(best) => best,
        }
    }

    /// Whether the new block is finalized as it is stored.
    pub open spec fn finalizes(self, p: ImportParams) -> bool {
        self.stages.contains(Stage::Finality) && p.justification is Some && !self.voter_halted
    }

    /// Whether the new block makes the next epoch known: the slot stage is in
    /// the pipeline and the block's slot lies in the last known epoch.
    pub open spec fn opens_epoch(self, p: ImportParams) -> bool {
        &&& self.stages.contains(Stage::SlotVerification)
        &&& p.header.claim is Some
        &&& epoch_index(self, p.header.claim->Some_0.slot) + 1 == self.epochs.len()
    }

    /// The epoch that the new block makes known. Its randomness is the block's
    /// id. Its authority set is the one that the block announces, if it
    /// announces one that is not empty, and else the set of the last epoch.
    pub open spec fn next_epoch(self, p: ImportParams) -> Epoch {
        Epoch {
            authorities: match p.header.next_authorities {
                Some(n) => if n > 0 {
                    n
                } else {
                    self.epochs[self.epochs.len() - 1].authorities
                },
                None => self.epochs[self.epochs.len() - 1].authorities,
            },
            randomness: p.header.id,
        }
    }

    /// The outcome of an import attempt. A known block is `AlreadyInChain`; one
    /// whose parent is not stored is `Missing`; then the number is checked,
    /// then the stages object in their order; what is left is stored.
    pub open spec fn verdict(self, p: ImportParams) -> Verdict {
        if known(self.blocks, p.header.id) {
            Verdict::AlreadyInChain
        } else if !known(self.blocks, p.header.parent) {
            Verdict::Missing(p.header.parent)
        } else if self.blocks[index_of(self.blocks, p.header.parent)].number + 1 != p.header.number {
            Verdict::Discard(DiscardReason::BadNumber)
        } else {
            match self.first_objection(0, p) {
                Some(reason) => Verdict::Discard(reason),
                None => Verdict::Imported(
                    ImportedAux { is_new_best: self.becomes_best(p), finalized: self.finalizes(p) },
                ),
            }
        }
    }

    /// The state after an import attempt: changed only where the block is
    /// stored.
    pub open spec fn after(self, p: ImportParams) -> ChainState {
        if self.verdict(p) is Imported {
            let at = self.blocks.len() as int;
            ChainState {
                stages: self.stages,
                blocks: self.blocks.push(
                    StoredBlock {
                        id: p.header.id,
                        parent: p.header.parent,
                        number: p.header.number,
                        parent_index: index_of(self.blocks, p.header.parent) as usize,
                    },
                ),
                best: if self.becomes_best(p) { at } else { self.best },
                finalized: if self.finalizes(p) { at } else { self.finalized },
                total_weight: self.total_weight,
                genesis_slot: self.genesis_slot,
                epoch_length: self.epoch_length,
                epochs: if self.opens_epoch(p) {
                    self.epochs.push(self.next_epoch(p))
                } else {
                    self.epochs
                },
                recorded: if self.stages.contains(Stage::Mapping) {
                    self.recorded.push(Recorded { external: p.header.external, id: p.header.id, number: p.header.number })
                } else {
                    self.recorded
                },
                voter_halted: self.voter_halted,
            }
        } else {
            self
        }
    }
}

/// Why the finality engine does not finalize a block.
#[derive(Clone, Copy, Debug, PartialEq, Eq)]
pub enum FinalityError {
    /// The engine has halted on an earlier violation.
    Halted,
    /// No block of this id is stored.
    UnknownBlock,
    /// The justification is for another block or lacks the weight.
    InvalidJustification,
    /// The block is neither on the finalized chain nor a descendant of it.
    ConflictingChain,
}

impl ChainState {
    /// What the finality engine answers to a justification for a block.
    pub open spec fn finality_answer(self, j: Justification) -> Result<(), FinalityError> {
        if self.voter_halted {
            Err(FinalityError::Halted)
        } else if !known(self.blocks, j.target) {
            Err(FinalityError::UnknownBlock)
        } else if !justified(self, j.target, j) {
            Err(FinalityError::InvalidJustification)
        } else if descends_from(self.blocks, self.finalized, index_of(self.blocks, j.target))
            || descends_from(self.blocks, index_of(self.blocks, j.target), self.finalized) {
            Ok(())
        } else {
            Err(FinalityError::ConflictingChain)
        }
    }

    /// The state after that answer: a descendant of the finalized block becomes
    /// the finalized block, and a violation halts the engine.
    pub open spec fn after_justification(self, j: Justification) -> ChainState {
        match self.finality_answer(j) {
            Ok(()) => if descends_from(self.blocks, index_of(self.blocks, j.target), self.finalized) {
                ChainState { finalized: index_of(self.blocks, j.target), ..self }
            } else {
                self
            },
            Err(FinalityError::InvalidJustification) | Err(FinalityError::ConflictingChain) => ChainState {
                voter_halted: true,
                ..self
            },
            Err(_) => self,
        }
    }
}

/// The pipeline with its store.
#[derive(Debug)]
pub struct BlockImportChain {
    stages: Vec<Stage>,
    blocks: Vec<StoredBlock>,
    best: usize,
    finalized: usize,
    total_weight: u64,
    genesis_slot: u64,
    epoch_length: u64,
    epochs: Vec<Epoch>,
    recorded: Vec<Recorded>,
    voter_halted: bool,
}

impl View for BlockImportChain {
    type V = ChainState;

    closed spec fn view(&self) -> ChainState {
        ChainState {
            stages: self.stages@,
            blocks: self.blocks@,
            best: self.best as int,
            finalized: self.finalized as int,
            total_weight: self.total_weight as int,
            genesis_slot: self.genesis_slot as int,
            epoch_length: self.epoch_length as int,
            epochs: self.epochs@,
            recorded: self.recorded@,
            voter_halted: self.voter_halted,
        }
    }
}

/// The place, in the epoch's authority set, of the leader of a slot: the
/// authorities lead in turn, from a start that the randomness sets.
pub fn slot_leader(epoch: &Epoch, slot: u64) -> (owner: u32)
    requires
        epoch.authorities > 0,
    ensures
        owner == slot_owner(*epoch, slot),
{
    let n: u64 = epoch.authorities as u64;
    let owner: u64 = (epoch.randomness % n + slot % n) % n;
    owner as u32
}

fn same_stage(a: Stage, b: Stage) -> (same: bool)
    ensures
        same == (a == b),
{
    match (a, b) {
        (Stage::Mapping, Stage::Mapping) => true,
        (Stage::Finality, Stage::Finality) => true,
        (Stage::SlotVerification, Stage::SlotVerification) => true,
        _ => false,
    }
}

/// Under a well-formed store the place of a stored id is the only one.
pub proof fn lemma_index_of(s: ChainState, i: int)
    requires
        s.wf(),
        0 <= i < s.blocks.len(),
    ensures
        known(s.blocks, s.blocks[i].id),
        index_of(s.blocks, s.blocks[i].id) == i,
{
    let id = s.blocks[i].id;
    let j = index_of(s.blocks, id);
    assert(0 <= j < s.blocks.len() && s.blocks[j].id == id);
}

impl BlockImportChain {
    /// A store that holds the genesis block alone, behind the given stages, with
    /// the first epoch known.
    pub fn new(
        stages: Vec<Stage>,
        genesis: BlockId,
        total_weight: u64,
        genesis_slot: u64,
        epoch_length: u64,
        first_epoch: Epoch,
    ) -> (chain: BlockImportChain)
        requires
            epoch_length > 0,
            first_epoch.authorities > 0,
        ensures
            chain@.wf(),
            chain@ == (ChainState {
                stages: stages@,
                blocks: seq![StoredBlock { id: genesis, parent: 0, number: 0, parent_index: 0 }],
                best: 0,
                finalized: 0,
                total_weight: total_weight as int,
                genesis_slot: genesis_slot as int,
                epoch_length: epoch_length as int,
                epochs: seq![first_epoch],
                recorded: Seq::empty(),
                voter_halted: false,
            }),
    {
        let mut blocks = Vec::new();
        blocks.push(StoredBlock { id: genesis, parent: 0, number: 0, parent_index: 0 });
        let mut epochs = Vec::new();
        epochs.push(first_epoch);
        let chain = BlockImportChain {
            stages,
            blocks,
            best: 0,
            finalized: 0,
            total_weight,
            genesis_slot,
            epoch_length,
            epochs,
            recorded: Vec::new(),
            voter_halted: false,
        };
        assert(chain@.blocks =~= seq![
            StoredBlock { id: genesis, parent: 0, number: 0, parent_index: 0 },
        ]);
        assert(chain@.epochs =~= seq![first_epoch]);
        assert(chain@.recorded =~= Seq::empty());
        chain
    }

    fn find(&self, id: BlockId) -> (at: Option<usize>)
        requires
            self@.wf(),
        ensures
            at is Some == known(self@.blocks, id),
            at is Some ==> at->Some_0 == index_of(self@.blocks, id) && at->Some_0 < self@.blocks.len(),
    {
        let mut i: usize = 0;
        while i < self.blocks.len()
            invariant
                self@.wf(),
                i <= self.blocks@.len(),
                forall|j: int| 0 <= j < i ==> (#[trigger] self.blocks@[j]).id != id,
            decreases self.blocks@.len() - i,
        {
            if self.blocks[i].id == id {
                proof {
                    lemma_index_of(self@, i as int);
                }
                return Some(i);
            }
            i += 1;
        }
        None
    }

    fn has_stage(&self, stage: Stage) -> (has: bool)
        ensures
            has == self@.stages.contains(stage),
    {
        let mut i: usize = 0;
        while i < self.stages.len()
            invariant
                i <= self.stages@.len(),
                forall|j: int| 0 <= j < i ==> self.stages@[j] != stage,
            decreases self.stages@.len() - i,
        {
            if same_stage(self.stages[i], stage) {
                return true;
            }
            i += 1;
        }
        false
    }

    fn walk_to(&self, from: usize, height: u64) -> (at: usize)
        requires
            self@.wf(),
            from < self@.blocks.len(),
        ensures
            at == ancestor_at(self@.blocks, from as int, height as int),
            at < self@.blocks.len(),
    {
        let mut i: usize = from;
        while i > 0 && self.blocks[i].number > height
            invariant
                self@.wf(),
                i < self@.blocks.len(),
                ancestor_at(self@.blocks, i as int, height as int) == ancestor_at(
                    self@.blocks,
                    from as int,
                    height as int,
                ),
            decreases i,
        {
            i = self.blocks[i].parent_index;
        }
        i
    }

    fn holds(&self, id: BlockId, j: &Justification) -> (good: bool)
        ensures
            good == justified(self@, id, *j),
    {
        let have: u128 = 3 * (j.weight as u128);
        let need: u128 = 2 * (self.total_weight as u128);
        j.target == id && have > need
    }

    fn objection(&self, stage: Stage, p: &ImportParams, parent_at: usize) -> (found: Option<
        DiscardReason,
    >)
        requires
            self@.wf(),
            parent_at < self@.blocks.len(),
            parent_at == index_of(self@.blocks, p.header.parent),
        ensures
            found == self@.stage_objection(stage, *p),
    {
        match stage {
            Stage::Mapping => None,
            Stage::Finality => {
                let height = self.blocks[self.finalized].number;
                if self.walk_to(parent_at, height) != self.finalized {
                    return Some(DiscardReason::ConflictsWithFinalized);
                }
                match &p.justification {
                    Some(j) => if !self.holds(p.header.id, j) {
                        Some(DiscardReason::InvalidJustification)
                    } else {
                        None
                    },
                    None => None,
                }
            },
            Stage::SlotVerification => match p.header.claim {
                None => Some(DiscardReason::BadDigest),
                Some(claim) => {
                    if claim.slot < self.genesis_slot {
                        return Some(DiscardReason::EpochDataUnavailable);
                    }
                    let index: u64 = (claim.slot - self.genesis_slot) / self.epoch_length;
                    if index >= self.epochs.len() as u64 {
                        return Some(DiscardReason::EpochDataUnavailable);
                    }
                    let epoch = &self.epochs[index as usize];
                    if slot_leader(epoch, claim.slot) != claim.authority_index {
                        Some(DiscardReason::NotSlotLeader)
                    } else {
                        None
                    }
                },
            },
        }
    }

    /// What an import of this header would meet in the store, without storing
    /// anything: `AlreadyInChain` for a known block, `Missing` for one whose
    /// parent is not stored, and `None` for a block that can go to the stages.
    pub fn check_block(&self, header: &Header) -> (early: Option<Verdict>)
        requires
            self@.wf(),
        ensures
            early == (if known(self@.blocks, header.id) {
                Some(Verdict::AlreadyInChain)
            } else if !known(self@.blocks, header.parent) {
                Some(Verdict::Missing(header.parent))
            } else {
                None
            }),
    {
        if self.find(header.id).is_some() {
            Some(Verdict::AlreadyInChain)
        } else if self.find(header.parent).is_none() {
            Some(Verdict::Missing(header.parent))
        } else {
            None
        }
    }

    /// Takes a block through the stages and stores it if none objects.
    pub fn import_block(&mut self, p: ImportParams) -> (verdict: Verdict)
        requires
            old(self)@.wf(),
        ensures
            verdict == old(self)@.verdict(p),
            final(self)@ == old(self)@.after(p),
            final(self)@.wf(),
    {
        if self.find(p.header.id).is_some() {
            return Verdict::AlreadyInChain;
        }
        let parent_at = match self.find(p.header.parent) {
            Some(i) => i,
            None => {
                return Verdict::Missing(p.header.parent);
            },
        };
        let parent_number = self.blocks[parent_at].number;
        if parent_number == u64::MAX || parent_number + 1 != p.header.number {
            return Verdict::Discard(DiscardReason::BadNumber);
        }
        let mut k: usize = 0;
        while k < self.stages.len()
            invariant
                *self == *old(self),
                self@.wf(),
                parent_at < self@.blocks.len(),
                parent_at == index_of(self@.blocks, p.header.parent),
                k <= self@.stages.len(),
                !known(self@.blocks, p.header.id),
                known(self@.blocks, p.header.parent),
                self@.blocks[parent_at as int].number + 1 == p.header.number,
                self@.first_objection(0, p) == self@.first_objection(k as int, p),
                forall|j: int| 0 <= j < k ==> self@.stage_objection(#[trigger] self@.stages[j], p) is None,
            decreases self@.stages.len() - k,
        {
            match self.objection(self.stages[k], &p, parent_at) {
                Some(reason) => {
                    assert(self@.first_objection(k as int, p) == Some(reason));
                    return Verdict::Discard(reason);
                },
                None => {},
            }
            k += 1;
        }
        let at = self.blocks.len();
        let is_new_best = match p.fork_choice {
            ForkChoiceStrategy::LongestChain => p.header.number > self.blocks[self.best].number,
            ForkChoiceStrategy::Custom(best) => best,
        };
        let finalized = self.has_stage(Stage::Finality) && p.justification.is_some()
            && !self.voter_halted;
        if self.has_stage(Stage::SlotVerification) {
            match p.header.claim {
                Some(claim) => {
                    proof {
                        let j = choose|j: int|
                            0 <= j < self@.stages.len() && self@.stages[j] == Stage::SlotVerification;
                        assert(self@.stage_objection(self@.stages[j], p) is None);
                        assert(epoch_available(self@, claim.slot));
                    }
                    let index: u64 = (claim.slot - self.genesis_slot) / self.epoch_length;
                    assert(index == epoch_index(self@, claim.slot));
                    let last: usize = self.epochs.len() - 1;
                    if index == last as u64 {
                        let authorities: u32 = match p.header.next_authorities {
                            Some(n) => if n > 0 {
                                n
                            } else {
                                self.epochs[last].authorities
                            },
                            None => self.epochs[last].authorities,
                        };
                        self.epochs.push(Epoch { authorities, randomness: p.header.id });
                    }
                },
                None => {},
            }
        }
        if self.has_stage(Stage::Mapping) {
            self.recorded.push(Recorded { external: p.header.external, id: p.header.id, number: p.header.number });
        }
        self.blocks.push(
            StoredBlock {
                id: p.header.id,
                parent: p.header.parent,
                number: p.header.number,
                parent_index: parent_at,
            },
        );
        if is_new_best {
            self.best = at;
        }
        if finalized {
            self.finalized = at;
        }
        assert(self@ =~= old(self)@.after(p));
        Verdict::Imported(ImportedAux { is_new_best, finalized })
    }
}

impl ChainState {
    /// Whether the block at place `i` lies on the chain that ends in the head.
    pub open spec fn canonical(self, i: int) -> bool {
        descends_from(self.blocks, self.best, i)
    }

    /// Whether both blocks are stored and the block `id` is the block
    /// `ancestor` or descends from it.
    pub open spec fn descends(self, id: BlockId, ancestor: BlockId) -> bool {
        &&& known(self.blocks, id)
        &&& known(self.blocks, ancestor)
        &&& descends_from(self.blocks, index_of(self.blocks, id), index_of(self.blocks, ancestor))
    }
}

impl BlockImportChain {
    /// Hands a justification for a stored block to the finality engine. A
    /// descendant of the finalized block becomes the finalized block; a block on
    /// the finalized chain stays as it is. A justification that does not hold,
    /// or one for a block off the finalized chain, halts the engine: it then
    /// answers `Halted` and finalizes nothing, while blocks are still imported.
    pub fn import_justification(&mut self, j: Justification) -> (answer: Result<(), FinalityError>)
        requires
            old(self)@.wf(),
        ensures
            answer == old(self)@.finality_answer(j),
            final(self)@ == old(self)@.after_justification(j),
            final(self)@.wf(),
    {
        if self.voter_halted {
            return Err(FinalityError::Halted);
        }
        let at = match self.find(j.target) {
            Some(i) => i,
            None => {
                return Err(FinalityError::UnknownBlock);
            },
        };
        if !self.holds(j.target, &j) {
            self.voter_halted = true;
            return Err(FinalityError::InvalidJustification);
        }
        if self.walk_to(at, self.blocks[self.finalized].number) == self.finalized {
            self.finalized = at;
            return Ok(());
        }
        if self.walk_to(self.finalized, self.blocks[at].number) == at {
            return Ok(());
        }
        self.voter_halted = true;
        Err(FinalityError::ConflictingChain)
    }

    /// Whether a block of this id is stored.
    pub fn is_known(&self, id: BlockId) -> (yes: bool)
        requires
            self@.wf(),
        ensures
            yes == known(self@.blocks, id),
    {
        self.find(id).is_some()
    }

    /// Whether the block of this id is stored and lies on the chain that ends in
    /// the head.
    pub fn is_canonical(&self, id: BlockId) -> (yes: bool)
        requires
            self@.wf(),
        ensures
            yes == (known(self@.blocks, id) && self@.canonical(index_of(self@.blocks, id))),
    {
        match self.find(id) {
            Some(at) => self.walk_to(self.best, self.blocks[at].number) == at,
            None => false,
        }
    }

    /// Whether both blocks are stored and the block `id` is the block
    /// `ancestor` or descends from it.
    pub fn descends(&self, id: BlockId, ancestor: BlockId) -> (yes: bool)
        requires
            self@.wf(),
        ensures
            yes == self@.descends(id, ancestor),
    {
        match (self.find(id), self.find(ancestor)) {
            (Some(at), Some(above)) => self.walk_to(at, self.blocks[above].number) == above,
            _ => false,
        }
    }

    /// The head of the chain.
    pub fn best(&self) -> (block: StoredBlock)
        requires
            self@.wf(),
        ensures
            block == self@.blocks[self@.best],
    {
        self.blocks[self.best]
    }

    /// The finalized block.
    pub fn finalized(&self) -> (block: StoredBlock)
        requires
            self@.wf(),
        ensures
            block == self@.blocks[self@.finalized],
    {
        self.blocks[self.finalized]
    }

    /// How many blocks are stored, the genesis block included.
    pub fn block_count(&self) -> (n: usize)
        ensures
            n == self@.blocks.len(),
    {
        self.blocks.len()
    }

    /// The epoch of a slot, if it is known.
    pub fn epoch_at(&self, slot: u64) -> (epoch: Option<Epoch>)
        requires
            self@.wf(),
        ensures
            epoch == (if epoch_available(self@, slot) {
                Some(self@.epochs[epoch_index(self@, slot)])
            } else {
                None
            }),
    {
        if slot < self.genesis_slot {
            return None;
        }
        let index: u64 = (slot - self.genesis_slot) / self.epoch_length;
        if index >= self.epochs.len() as u64 {
            return None;
        }
        Some(self.epochs[index as usize])
    }

    /// How many epochs are known.
    pub fn epoch_count(&self) -> (n: usize)
        ensures
            n == self@.epochs.len(),
    {
        self.epochs.len()
    }

    /// Whether the finality engine has halted.
    pub fn voter_halted(&self) -> (halted: bool)
        ensures
            halted == self@.voter_halted,
    {
        self.voter_halted
    }

    /// How many stored blocks the mapping stage has noted.
    pub fn recorded_count(&self) -> (n: usize)
        ensures
            n == self@.recorded.len(),
    {
        self.recorded.len()
    }

    /// The `i`-th note of the mapping stage.
    pub fn recorded(&self, i: usize) -> (note: Recorded)
        requires
            i < self@.recorded.len(),
        ensures
            note == self@.recorded[i as int],
    {
        self.recorded[i]
    }
}

/// If some stage from place `from` on objects, the pipeline objects.
pub proof fn lemma_objection_found(s: ChainState, p: ImportParams, from: int, j: int)
    requires
        0 <= from <= j < s.stages.len(),
        s.stage_objection(s.stages[j], p) is Some,
    ensures
        s.first_objection(from, p) is Some,
    decreases j - from,
{
    if from < j && s.stage_objection(s.stages[from], p) is None {
        lemma_objection_found(s, p, from + 1, j);
    }
}

/// If the pipeline does not object from place `from` on, no stage there does.
pub proof fn lemma_no_objection(s: ChainState, p: ImportParams, from: int, j: int)
    requires
        0 <= from <= j < s.stages.len(),
        s.first_objection(from, p) is None,
    ensures
        s.stage_objection(s.stages[j], p) is None,
    decreases j - from,
{
    if from < j {
        lemma_no_objection(s, p, from + 1, j);
    }
}

/// A block added at the end changes the ancestors of no block before it.
pub proof fn lemma_ancestor_after_push(blocks: Seq<StoredBlock>, b: StoredBlock, i: int, height: int)
    requires
        0 <= i < blocks.len(),
    ensures
        ancestor_at(blocks.push(b), i, height) == ancestor_at(blocks, i, height),
    decreases i,
{
    let more = blocks.push(b);
    assert(more[i] == blocks[i]);
    if 0 < i && blocks[i].number > height && blocks[i].parent_index < i {
        lemma_ancestor_after_push(blocks, b, blocks[i].parent_index as int, height);
    }
}

/// Importing a block a second time stores nothing: the attempt that follows a
/// stored or known block is answered `AlreadyInChain`, and whatever the first
/// answer was, the second attempt leaves the state as the first left it.
pub proof fn law_import_is_idempotent(s: ChainState, p: ImportParams)
    requires
        s.wf(),
    ensures
        s.verdict(p) is Imported || s.verdict(p) is AlreadyInChain ==> s.after(p).verdict(p)
            == Verdict::AlreadyInChain,
        !(s.verdict(p) is Imported) ==> s.after(p).verdict(p) == s.verdict(p),
        s.after(p).after(p) == s.after(p),
{
    if s.verdict(p) is Imported {
        let t = s.after(p);
        assert(t.blocks[s.blocks.len() as int].id == p.header.id);
        assert(known(t.blocks, p.header.id));
    }
}

/// A block whose parent is not stored is answered `Missing` with the parent's
/// id. Once the parent is stored, the block is no longer missing anything: it
/// is stored exactly if its number follows the parent's and no stage objects.
pub proof fn law_orphan_waits_for_parent(s: ChainState, parent: ImportParams, child: ImportParams)
    requires
        s.wf(),
        !known(s.blocks, child.header.id),
        !known(s.blocks, child.header.parent),
        child.header.parent == parent.header.id,
        child.header.id != parent.header.id,
        s.verdict(parent) is Imported,
    ensures
        s.verdict(child) == Verdict::Missing(child.header.parent),
        s.after(child) == s,
        !(s.after(parent).verdict(child) is Missing),
        s.after(parent).verdict(child) is Imported <==> {
            &&& child.header.number == parent.header.number + 1
            &&& s.after(parent).first_objection(0, child) is None
        },
{
    let t = s.after(parent);
    let at = s.blocks.len() as int;
    assert(t.blocks[at].id == parent.header.id);
    assert(known(t.blocks, child.header.parent));
    assert(!known(t.blocks, child.header.id)) by {
        if known(t.blocks, child.header.id) {
            let i = index_of(t.blocks, child.header.id);
            if i < at {
                assert(s.blocks[i].id == child.header.id);
            }
        }
    }
    assert(index_of(t.blocks, child.header.parent) == at) by {
        let i = index_of(t.blocks, child.header.parent);
        if i < at {
            assert(s.blocks[i].id == parent.header.id);
        }
    }
}

/// The store never holds a block whose parent is absent: whatever is
/// submitted, the state after an import attempt is well-formed again.
pub proof fn law_store_stays_well_formed(s: ChainState, p: ImportParams)
    requires
        s.wf(),
        s.fits(),
    ensures
        s.after(p).wf(),
{
    if s.verdict(p) is Imported {
        let t = s.after(p);
        let at = s.blocks.len() as int;
        let pi = index_of(s.blocks, p.header.parent);
        assert(0 <= pi < at && s.blocks[pi].id == p.header.parent);
        assert forall|i: int| 0 < i < t.blocks.len() implies {
            let b = #[trigger] t.blocks[i];
            &&& b.parent_index < i
            &&& t.blocks[b.parent_index as int].id == b.parent
            &&& t.blocks[b.parent_index as int].number + 1 == b.number
        } by {
            if i < at {
                assert(t.blocks[i] == s.blocks[i]);
            }
        }
        assert forall|i: int, j: int| 0 <= i < j < t.blocks.len() implies (#[trigger] t.blocks[i]).id != (
        #[trigger] t.blocks[j]).id by {
            if j == at {
                assert(s.blocks[i].id != p.header.id);
            } else {
                assert(t.blocks[i] == s.blocks[i] && t.blocks[j] == s.blocks[j]);
            }
        }
        if s.opens_epoch(p) {
            let j = choose|j: int| 0 <= j < s.stages.len() && s.stages[j] == Stage::SlotVerification;
            lemma_no_objection(s, p, 0, j);
            assert forall|e: int| 0 <= e < t.epochs.len() implies (#[trigger] t.epochs[e]).authorities
                > 0 by {
                if e < s.epochs.len() {
                    assert(t.epochs[e] == s.epochs[e]);
                }
            }
        }
    }
}

/// Finality is irreversible. Behind a finality stage, a block whose parent
/// does not descend from the finalized block is not stored and changes
/// nothing; a block that is stored descends from the finalized block, and the
/// finalized block of the new state is the old one or descends from it.
pub proof fn law_finality_is_irreversible(s: ChainState, p: ImportParams)
    requires
        s.wf(),
        s.fits(),
        s.stages.contains(Stage::Finality),
    ensures
        known(s.blocks, p.header.parent) && !descends_from(
            s.blocks,
            index_of(s.blocks, p.header.parent),
            s.finalized,
        ) ==> !(s.verdict(p) is Imported) && s.after(p) == s,
        s.verdict(p) is Imported ==> descends_from(
            s.after(p).blocks,
            s.blocks.len() as int,
            s.finalized,
        ),
        descends_from(s.after(p).blocks, s.after(p).finalized, s.finalized),
{
    let j = choose|j: int| 0 <= j < s.stages.len() && s.stages[j] == Stage::Finality;
    let f = s.finalized;
    let height = s.blocks[f].number as int;
    if s.verdict(p) is Imported {
        lemma_no_objection(s, p, 0, j);
        let t = s.after(p);
        let at = s.blocks.len() as int;
        let pi = index_of(s.blocks, p.header.parent);
        assert(0 <= pi < at && s.blocks[pi].id == p.header.parent);
        assert(ancestor_at(s.blocks, pi, height) == f);
        lemma_ancestor_after_push(s.blocks, t.blocks[at], pi, height);
        assert(t.blocks[f] == s.blocks[f]);
        assert(t.blocks[at].number > height);
        assert(ancestor_at(t.blocks, at, height) == ancestor_at(t.blocks, pi, height));
        lemma_ancestor_after_push(s.blocks, t.blocks[at], f, height);
    } else {
        if known(s.blocks, p.header.parent) && !descends_from(
            s.blocks,
            index_of(s.blocks, p.header.parent),
            s.finalized,
        ) {
            if !known(s.blocks, p.header.id) {
                lemma_objection_found(s, p, 0, j);
            }
        }
    }
}

/// The finality engine moves the finalized block only to a block that descends
/// from it, and never once it has halted.
pub proof fn law_justification_only_advances(s: ChainState, j: Justification)
    requires
        s.wf(),
    ensures
        descends_from(s.blocks, s.after_justification(j).finalized, s.finalized),
        s.voter_halted ==> s.after_justification(j) == s,
        s.after_justification(j).blocks == s.blocks,
{
}

/// In a well-formed store the walk from a block towards the genesis block
/// ends at the height asked for, or at the block itself if that is lower.
pub proof fn lemma_ancestor_number(s: ChainState, i: int, height: int)
    requires
        s.wf(),
        0 <= i < s.blocks.len(),
        0 <= height,
    ensures
        0 <= ancestor_at(s.blocks, i, height) <= i,
        s.blocks[ancestor_at(s.blocks, i, height)].number == (if s.blocks[i].number <= height {
            s.blocks[i].number as int
        } else {
            height
        }),
    decreases i,
{
    if 0 < i && s.blocks[i].number > height {
        lemma_ancestor_number(s, s.blocks[i].parent_index as int, height);
    }
}

/// Walking to a height and on to a lower one ends where the walk to the lower
/// one ends.
pub proof fn lemma_ancestor_twice(s: ChainState, i: int, high: int, low: int)
    requires
        s.wf(),
        0 <= i < s.blocks.len(),
        0 <= low <= high,
    ensures
        ancestor_at(s.blocks, ancestor_at(s.blocks, i, high), low) == ancestor_at(s.blocks, i, low),
    decreases i,
{
    if 0 < i && s.blocks[i].number > high {
        lemma_ancestor_twice(s, s.blocks[i].parent_index as int, high, low);
    }
}

/// Descent is transitive: what descends from a block descends from every
/// block that this one descends from. So a block that conflicts with a block
/// finalized earlier conflicts with every block finalized after it.
pub proof fn law_descent_is_transitive(s: ChainState, b: int, f: int, g: int)
    requires
        s.wf(),
        0 <= b < s.blocks.len(),
        0 <= f < s.blocks.len(),
        0 <= g < s.blocks.len(),
        descends_from(s.blocks, b, f),
        descends_from(s.blocks, f, g),
    ensures
        descends_from(s.blocks, b, g),
{
    let high = s.blocks[f].number as int;
    let low = s.blocks[g].number as int;
    lemma_ancestor_number(s, f, low);
    lemma_ancestor_twice(s, b, high, low);
}

} // verus!
