//! Mutual-TLS service identities.
//!
//! A certificate's common name is mapped one-to-one to a principal;
//! an unknown common name is auto-provisioned on first contact as a
//! managed principal named after the common name, the principal row
//! and its link created together.

use vstd::prelude::*;

use crate::resolver::AuthenticatedUser;

verus! {

/// One mTLS identity: a common name linked to its principal.
#[derive(Clone, Debug)]
pub struct MtlsEntry {
    /// The certificate's common name.
    pub common_name: String,
    /// The linked principal.
    pub principal: AuthenticatedUser,
}

/// Whether some entry links the common name.
pub open spec fn has_cname(entries: Seq<MtlsEntry>, cname: Seq<char>) -> bool {
    exists|i: int| 0 <= i < entries.len() && (#[trigger] entries[i]).common_name@ == cname
}

/// Whether no common name appears twice.
pub open spec fn distinct_cnames(entries: Seq<MtlsEntry>) -> bool {
    forall|i: int, j: int|
        0 <= i < j < entries.len() ==> (#[trigger] entries[i]).common_name@ != (
        #[trigger] entries[j]).common_name@
}

/// Whether every entry holds an auto-provisioned service principal:
/// managed, and named after its common name.
pub open spec fn entries_provisioned(entries: Seq<MtlsEntry>) -> bool {
    forall|i: int|
        0 <= i < entries.len() ==> (#[trigger] entries[i]).principal.managed && entries[i].principal.display_name@
            == entries[i].common_name@
}

/// The registered mTLS identities.
///
/// The one-to-one map from common name to principal is the
/// directory's invariant: no common name appears twice, and each
/// entry holds a managed principal named after its common name.
#[derive(Debug)]
pub struct MtlsDirectory {
    entries: Vec<MtlsEntry>,
    next_id: i32,
}

impl MtlsDirectory {
    /// The registered entries.
    pub closed spec fn view(&self) -> Seq<MtlsEntry> {
        self.entries@
    }

    /// The id the next auto-provisioned principal will receive.
    pub closed spec fn spec_next_id(&self) -> i32 {
        self.next_id
    }

    /// Well-formed: each common name has at most one entry, and each
    /// entry is a provisioned service principal.
    pub open spec fn wf(&self) -> bool {
        distinct_cnames(self@) && entries_provisioned(self@)
    }

    /// Creates an empty directory.
    pub fn new() -> (r: MtlsDirectory)
        ensures
            r@ == Seq::<MtlsEntry>::empty(),
            r.spec_next_id() == 1,
            r.wf(),
    {
        MtlsDirectory { entries: Vec::new(), next_id: 1 }
    }

    /// Resolves an mTLS-authenticated client to its principal.
    ///
    /// A registered common name resolves to its linked principal and
    /// the directory is untouched.  An unknown one is provisioned: a
    /// managed principal named after the common name is created under
    /// the next free id and linked to it, both together.  Either way
    /// the result is a managed principal whose display name is the
    /// common name, and the common name ends up with exactly one
    /// entry.
    pub fn get_or_create_bot_user(&mut self, cname: &str) -> (r: AuthenticatedUser)
        requires
            old(self).wf(),
            old(self).spec_next_id() < i32::MAX,
        ensures
            final(self).wf(),
            r.managed,
            r.display_name@ == cname@,
            has_cname(old(self)@, cname@) ==> final(self)@ == old(self)@
                && final(self).spec_next_id() == old(self).spec_next_id() && (exists|i: int|
                0 <= i < old(self)@.len() && (#[trigger] old(self)@[i]).common_name@ == cname@
                    && r.id == old(self)@[i].principal.id),
            !has_cname(old(self)@, cname@) ==> r.id == old(self).spec_next_id() && final(self)@.len()
                == old(self)@.len() + 1
                && final(self)@.subrange(0, old(self)@.len() as int) == old(self)@
                && final(self)@.last().common_name@ == cname@
                && final(self)@.last().principal.id == r.id
                && final(self).spec_next_id() == old(self).spec_next_id() + 1,
    {
        let ghost entries = self.entries@;
        let mut i: usize = 0;
        while i < self.entries.len()
            invariant
                0 <= i <= entries.len(),
                self.entries@ == entries,
                entries == old(self)@,
                self.next_id == old(self).spec_next_id(),
                distinct_cnames(entries),
                entries_provisioned(entries),
                forall|j: int| 0 <= j < i ==> (#[trigger] entries[j]).common_name@ != cname@,
            decreases entries.len() - i,
        {
            if string_eq(self.entries[i].common_name.as_str(), cname) {
                return self.entries[i].principal.clone();
            }
            i = i + 1;
        }
        assert(!has_cname(entries, cname@));
        let id = self.next_id;
        let principal = AuthenticatedUser { id, display_name: cname.to_owned(), managed: true };
        self.entries.push(MtlsEntry { common_name: cname.to_owned(), principal: principal.clone() });
        self.next_id = self.next_id + 1;
        proof {
            assert(self.entries@.subrange(0, entries.len() as int) =~= entries);
            let newseq = self.entries@;
            assert(distinct_cnames(entries));
            assert forall|a: int, b: int| 0 <= a < b < newseq.len() implies (
            #[trigger] newseq[a]).common_name@ != (#[trigger] newseq[b]).common_name@ by {
                if b < entries.len() {
                    assert(entries[a].common_name@ != entries[b].common_name@);
                } else {
                    assert(newseq[b].common_name@ == cname@);
                    assert(entries[a].common_name@ != cname@);
                }
            }
            assert(distinct_cnames(newseq));
            assert forall|a: int|
                0 <= a < newseq.len() implies (#[trigger] newseq[a]).principal.managed
                && newseq[a].principal.display_name@ == newseq[a].common_name@ by {
                if a < entries.len() {
                    assert(entries[a].principal.managed && entries[a].principal.display_name@
                        == entries[a].common_name@);
                }
            }
            assert(entries_provisioned(newseq));
        }
        principal
    }
}

/// Compares two strings by their characters.
fn string_eq(a: &str, b: &str) -> (r: bool)
    ensures
        r == (a@ == b@),
{
    let a_owned = a.to_owned();
    let b_owned = b.to_owned();
    a_owned == b_owned
}

/// Law: once a common name is linked — including by the slower of two
/// racing first contacts — every entry for that name is the one that
/// linked it: one principal per common name.
pub proof fn lemma_one_principal_per_common_name(
    entries: Seq<MtlsEntry>,
    cname: Seq<char>,
    e: MtlsEntry,
)
    requires
        !has_cname(entries, cname),
        e.common_name@ == cname,
    ensures
        has_cname(entries.push(e), cname),
        forall|i: int|
            0 <= i < entries.push(e).len() && (#[trigger] entries.push(e)[i]).common_name@ == cname
                ==> entries.push(e)[i] == e,
{
    let extended = entries.push(e);
    assert(extended[entries.len() as int] == e);
    assert forall|i: int|
        0 <= i < extended.len() && (#[trigger] extended[i]).common_name@ == cname implies extended[i]
        == e by {
        if i < entries.len() {
            assert(entries[i].common_name@ == cname);
        }
    }
}

} // verus!
