//! Authorization: whether a call carries the signatures that an authority
//! asks for, be it a single key or a multisignature threshold.

use vstd::prelude::*;
use crate::account_info::{account_views, AccountInfo, AccountInfoView};
use crate::error::{ProgramError, TokenError};
use crate::instruction::MAX_SIGNERS;
use crate::processor::Processor;
use crate::pubkey::Pubkey;
use crate::state::{Multisig, MULTISIG_LEN};

verus! {

/// Whether some entry of `signers` carries `key` together with the
/// authenticated-signer flag.
pub open spec fn signed_by(signers: Seq<AccountInfoView>, key: Pubkey) -> bool {
    exists|j: int|
        #![trigger signers[j]]
        0 <= j < signers.len() && signers[j].key == key && signers[j].is_signer
}

/// Whether entry `j` is the first of `signers` that carries `key`.
pub open spec fn presents_first(signers: Seq<AccountInfoView>, key: Pubkey, j: int) -> bool {
    &&& 0 <= j < signers.len()
    &&& signers[j].key == key
    &&& forall|i: int| #![trigger signers[i]] 0 <= i < j ==> signers[i].key != key
}

/// Whether the first entry of `signers` that carries `key` lacks the
/// authenticated-signer flag.
pub open spec fn unsigned_first(signers: Seq<AccountInfoView>, key: Pubkey) -> bool {
    exists|j: int| #[trigger] presents_first(signers, key, j) && !signers[j].is_signer
}

/// Whether one of `slots` is presented first by an entry without the
/// authenticated-signer flag.
pub open spec fn unsigned_match(slots: Seq<Pubkey>, signers: Seq<AccountInfoView>) -> bool {
    exists|p: int| #![trigger slots[p]] 0 <= p < slots.len() && unsigned_first(signers, slots[p])
}

/// The number of `slots` that an authenticated entry of `signers` matches.
/// It counts slots, so several entries for one slot count once.
pub open spec fn signed_slots(slots: Seq<Pubkey>, signers: Seq<AccountInfoView>) -> nat
    decreases slots.len(),
{
    if slots.len() == 0 {
        0
    } else {
        signed_slots(slots.drop_last(), signers) + if signed_by(signers, slots.last()) {
            1nat
        } else {
            0nat
        }
    }
}

impl Multisig {
    /// The signer slots that count: the first `n`.
    pub open spec fn spec_slots(self) -> Seq<Pubkey> {
        self.signers@.take(self.n as int)
    }

    /// Whether `signers` authorize a call in the name of this authority:
    /// no slot is presented first without a signature, and at least `m`
    /// slots are matched by authenticated signers.
    pub open spec fn spec_authorizes(self, signers: Seq<AccountInfoView>) -> bool {
        &&& !unsigned_match(self.spec_slots(), signers)
        &&& signed_slots(self.spec_slots(), signers) >= self.m
    }
}

/// The outcome of authorization: the authority record must be the expected
/// owner; a multisignature record of this program must be authorized by
/// the signer list, any other record must itself have signed.
#[verifier::opaque]
pub open spec fn spec_validate_owner(
    program_id: Pubkey,
    expected_owner: Pubkey,
    owner_account: AccountInfoView,
    signers: Seq<AccountInfoView>,
) -> Result<(), ProgramError> {
    if expected_owner != owner_account.key {
        Err(TokenError::OwnerMismatch.spec_program_error())
    } else if program_id == owner_account.owner && owner_account.data.len() == MULTISIG_LEN {
        match Multisig::spec_unpack(owner_account.data) {
            Err(e) => Err(e),
            Ok(multisig) => if multisig.n > MAX_SIGNERS {
                Err(ProgramError::InvalidAccountData)
            } else if multisig.spec_authorizes(signers) {
                Ok(())
            } else {
                Err(ProgramError::MissingRequiredSignature)
            },
        }
    } else if !owner_account.is_signer {
        Err(ProgramError::MissingRequiredSignature)
    } else {
        Ok(())
    }
}

/// The number of flags that are set.
pub open spec fn count_set(flags: Seq<bool>) -> nat
    decreases flags.len(),
{
    if flags.len() == 0 {
        0
    } else {
        count_set(flags.drop_last()) + if flags.last() {
            1nat
        } else {
            0nat
        }
    }
}

proof fn lemma_count_set_bound(flags: Seq<bool>)
    ensures
        count_set(flags) <= flags.len(),
    decreases flags.len(),
{
    if flags.len() > 0 {
        lemma_count_set_bound(flags.drop_last());
    }
}

/// Setting a flag that was clear adds one to the count.
proof fn lemma_count_set_update(flags: Seq<bool>, p: int)
    requires
        0 <= p < flags.len(),
        !flags[p],
    ensures
        count_set(flags.update(p, true)) == count_set(flags) + 1,
    decreases flags.len(),
{
    let after = flags.update(p, true);
    if p == flags.len() - 1 {
        assert(after.drop_last() =~= flags.drop_last());
    } else {
        lemma_count_set_update(flags.drop_last(), p);
        assert(after.drop_last() =~= flags.drop_last().update(p, true));
    }
}

/// Flags that say slot by slot whether an authenticated signer matches
/// count the signed slots.
proof fn lemma_count_set_is_signed_slots(
    flags: Seq<bool>,
    slots: Seq<Pubkey>,
    signers: Seq<AccountInfoView>,
)
    requires
        flags.len() == slots.len(),
        forall|p: int| 0 <= p < slots.len() ==> flags[p] == signed_by(signers, slots[p]),
    ensures
        count_set(flags) == signed_slots(slots, signers),
    decreases slots.len(),
{
    if slots.len() > 0 {
        lemma_count_set_is_signed_slots(flags.drop_last(), slots.drop_last(), signers);
    }
}

/// No more slots are signed than there are.
pub proof fn lemma_signed_slots_bound(slots: Seq<Pubkey>, signers: Seq<AccountInfoView>)
    ensures
        signed_slots(slots, signers) <= slots.len(),
    decreases slots.len(),
{
    if slots.len() > 0 {
        lemma_signed_slots_bound(slots.drop_last(), signers);
    }
}

/// One more entry for a key that an authenticated entry already carries
/// changes nothing: entries for one slot count once.
pub proof fn lemma_duplicate_signer_counts_once(
    slots: Seq<Pubkey>,
    signers: Seq<AccountInfoView>,
    extra: AccountInfoView,
)
    requires
        signed_by(signers, extra.key),
    ensures
        signed_slots(slots, signers.push(extra)) == signed_slots(slots, signers),
    decreases slots.len(),
{
    if slots.len() > 0 {
        lemma_duplicate_signer_counts_once(slots.drop_last(), signers, extra);
        let key = slots.last();
        let more = signers.push(extra);
        if signed_by(signers, key) {
            let j = choose|j: int|
                #![trigger signers[j]]
                0 <= j < signers.len() && signers[j].key == key && signers[j].is_signer;
            assert(more[j] == signers[j]);
        }
        if signed_by(more, key) {
            let j = choose|j: int|
                #![trigger more[j]]
                0 <= j < more.len() && more[j].key == key && more[j].is_signer;
            if j < signers.len() {
                assert(signers[j] == more[j]);
            } else {
                let i = choose|i: int|
                    #![trigger signers[i]]
                    0 <= i < signers.len() && signers[i].key == extra.key && signers[i].is_signer;
                assert(signers[i].key == key);
            }
        }
    }
}

/// A multisignature authority with threshold `m` authorizes a call only
/// if at least `m` of its slots are matched by authenticated signers; and
/// where no slot is presented first without a signature, that is all it
/// asks.
pub proof fn lemma_multisig_threshold(multisig: Multisig, signers: Seq<AccountInfoView>)
    ensures
        multisig.spec_authorizes(signers) ==> signed_slots(multisig.spec_slots(), signers)
            >= multisig.m,
        !unsigned_match(multisig.spec_slots(), signers) ==> (multisig.spec_authorizes(signers)
            <==> signed_slots(multisig.spec_slots(), signers) >= multisig.m),
        signed_slots(multisig.spec_slots(), signers) <= multisig.spec_slots().len(),
{
    lemma_signed_slots_bound(multisig.spec_slots(), signers);
}

impl Processor {
    /// Whether the signer list authorizes a call in the name of a
    /// multisignature authority.
    pub fn multisig_authorizes(multisig: &Multisig, signers: &[AccountInfo]) -> (r: bool)
        requires
            multisig.n <= MAX_SIGNERS,
        ensures
            r == multisig.spec_authorizes(account_views(signers@)),
    {
        let n: usize = multisig.n as usize;
        let ghost slots = multisig.spec_slots();
        let ghost all = account_views(signers@);
        let mut num_signers: u8 = 0;
        let mut matched = [false; 11];
        let mut j: usize = 0;
        assert(count_set(matched@.take(n as int)) == 0) by {
            lemma_count_set_is_zero(matched@.take(n as int));
        }
        while j < signers.len()
            invariant
                j <= signers@.len(),
                n == multisig.n,
                n <= 11,
                slots == multisig.spec_slots(),
                all == account_views(signers@),
                num_signers == count_set(matched@.take(n as int)),
                forall|p: int| 0 <= p < n ==> matched[p] == signed_by(all.take(j as int), slots[p]),
                forall|p: int|
                    0 <= p < n ==> (matched[p] <==> exists|i: int|
                        #![trigger all[i]]
                        0 <= i < j && all[i].key == slots[p]),
                forall|p: int, i: int|
                    0 <= p < n && i < j && #[trigger] presents_first(all, slots[p], i)
                        ==> all[i].is_signer,
            decreases signers@.len() - j,
        {
            let signer = &signers[j];
            let ghost before = matched@;
            let mut p: usize = 0;
            while p < n
                invariant
                    p <= n,
                    j < signers@.len(),
                    n == multisig.n,
                    n <= 11,
                    slots == multisig.spec_slots(),
                    all == account_views(signers@),
                    *signer == signers@[j as int],
                    before.len() == 11,
                    num_signers == count_set(matched@.take(n as int)),
                    forall|q: int| p <= q < 11 ==> matched[q] == before[q],
                    forall|q: int|
                        0 <= q < p ==> matched[q] == (before[q] || slots[q] == signer.key),
                    forall|q: int|
                        0 <= q < p && slots[q] == signer.key && !before[q] ==> signer.is_signer,
                    forall|q: int|
                        0 <= q < n ==> before[q] == signed_by(all.take(j as int), slots[q]),
                    forall|q: int|
                        0 <= q < n ==> (before[q] <==> exists|i: int|
                            #![trigger all[i]]
                            0 <= i < j && all[i].key == slots[q]),
                decreases n - p,
            {
                if multisig.signers[p] == signer.key && !matched[p] {
                    if !signer.is_signer {
                        proof {
                            assert(all[j as int] == signer@);
                            assert(slots[p as int] == multisig.signers[p as int]);
                            assert(!before[p as int]);
                            assert(presents_first(all, slots[p as int], j as int));
                            assert(unsigned_first(all, slots[p as int]));
                            assert(unsigned_match(slots, all));
                        }
                        return false;
                    }
                    proof {
                        lemma_count_set_bound(matched@.take(n as int));
                        lemma_count_set_update(matched@.take(n as int), p as int);
                        assert(matched@.update(p as int, true).take(n as int) =~= matched@.take(
                            n as int,
                        ).update(p as int, true));
                    }
                    matched[p] = true;
                    num_signers += 1;
                }
                p += 1;
            }
            proof {
                let prefix = all.take(j as int);
                let longer = all.take(j + 1);
                assert(longer[j as int] == signer@);
                assert forall|q: int| 0 <= q < n implies matched[q] == signed_by(
                    longer,
                    slots[q],
                ) by {
                    if signed_by(prefix, slots[q]) {
                        let i = choose|i: int|
                            #![trigger prefix[i]]
                            0 <= i < prefix.len() && prefix[i].key == slots[q]
                                && prefix[i].is_signer;
                        assert(longer[i] == prefix[i]);
                    }
                    if signed_by(longer, slots[q]) {
                        let i = choose|i: int|
                            #![trigger longer[i]]
                            0 <= i < longer.len() && longer[i].key == slots[q]
                                && longer[i].is_signer;
                        if i < j {
                            assert(prefix[i] == longer[i]);
                        }
                    }
                    if matched[q] && !before[q] {
                        assert(longer[j as int].key == slots[q] && longer[j as int].is_signer);
                    }
                }
                assert forall|q: int| 0 <= q < n implies (matched[q] <==> exists|i: int|
                    #![trigger all[i]]
                    0 <= i < j + 1 && all[i].key == slots[q]) by {
                    if matched[q] && !before[q] {
                        assert(all[j as int].key == slots[q]);
                    }
                }
                assert forall|q: int, i: int|
                    0 <= q < n && i < j + 1 && #[trigger] presents_first(
                        all,
                        slots[q],
                        i,
                    ) implies all[i].is_signer by {
                    if i == j {
                        assert(!before[q]);
                    }
                }
            }
            j += 1;
        }
        proof {
            assert(all.take(j as int) =~= all);
            lemma_count_set_is_signed_slots(matched@.take(n as int), slots, all);
            if unsigned_match(slots, all) {
                let p = choose|p: int|
                    #![trigger slots[p]]
                    0 <= p < slots.len() && unsigned_first(all, slots[p]);
                let i = choose|i: int|
                    #[trigger] presents_first(all, slots[p], i) && !all[i].is_signer;
                assert(false);
            }
        }
        num_signers >= multisig.m
    }

    /// Validates owner(s) are present.
    pub fn validate_owner(
        program_id: &Pubkey,
        expected_owner: &Pubkey,
        owner_account_info: &AccountInfo,
        signers: &[AccountInfo],
    ) -> (r: Result<(), ProgramError>)
        ensures
            r == spec_validate_owner(
                *program_id,
                *expected_owner,
                owner_account_info@,
                account_views(signers@),
            ),
    {
        proof {
            reveal(spec_validate_owner);
        }
        if expected_owner != &owner_account_info.key {
            return Err(ProgramError::from(TokenError::OwnerMismatch));
        }
        if program_id == &owner_account_info.owner && owner_account_info.data.len()
            == Multisig::get_packed_len() {
            let multisig = Multisig::unpack(owner_account_info.data.as_slice())?;
            if multisig.n as usize > MAX_SIGNERS {
                return Err(ProgramError::InvalidAccountData);
            }
            if !Self::multisig_authorizes(&multisig, signers) {
                return Err(ProgramError::MissingRequiredSignature);
            }
            return Ok(());
        } else if !owner_account_info.is_signer {
            return Err(ProgramError::MissingRequiredSignature);
        }
        Ok(())
    }
}

proof fn lemma_count_set_is_zero(flags: Seq<bool>)
    requires
        forall|p: int| 0 <= p < flags.len() ==> !flags[p],
    ensures
        count_set(flags) == 0,
    decreases flags.len(),
{
    if flags.len() > 0 {
        lemma_count_set_is_zero(flags.drop_last());
    }
}

} // verus!
