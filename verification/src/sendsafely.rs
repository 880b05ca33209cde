//! The SendSafely data model: read-only API snapshots of a package.
//!
//! These records mirror the package metadata the REST surface returns.
//! They are fetched fresh per run and never cached across runs; the
//! orchestrator reads them to decide approval gating and what to
//! download.

use vstd::prelude::*;

verus! {

/// A recipient's recorded access or acknowledgment event on a package.
pub struct Confirmation {
    pub ip_address: String,
    pub timestamp: String,
    pub time_stamp_str: String,
    pub is_message: bool,
}

/// A package recipient; read-only, used to detect approval gates.
pub struct Recipient {
    pub recipient_id: String,
    pub email: String,
    pub full_name: String,
    pub needs_approval: bool,
    pub recipient_code: String,
    pub confirmations: Vec<Confirmation>,
    pub is_package_owner: bool,
    pub check_for_public_keys: bool,
    pub role_name: String,
}

/// A bare reference to a file, directory or approver by its identifier.
pub struct ObjectWithId {
    pub id: String,
}

/// A file of a package with the metadata a download needs: its declared
/// name and the byte length the decrypted result must match.
pub struct FileRef {
    pub file_id: String,
    pub file_name: String,
    pub file_size: u64,
}

/// Package metadata as returned by the API.
pub struct Package {
    pub package_id: String,
    pub package_code: String,
    pub server_secret: String,
    pub recipients: Vec<Recipient>,
    pub contact_groups: Vec<ObjectWithId>,
    pub files: Vec<ObjectWithId>,
    pub directories: Vec<ObjectWithId>,
    pub approver_list: Vec<ObjectWithId>,
    pub needs_approval: bool,
    pub state: String,
    pub password_required: bool,
    pub life: i128,
    pub is_vdr: bool,
    pub is_archived: bool,
    pub package_sender: String,
    pub package_timestamp: String,
    pub root_directory_id: String,
    pub response: String,
}

/// The e-mail addresses of the recipients whose approval is pending, in
/// recipient order.
pub open spec fn spec_pending(rs: Seq<Recipient>) -> Seq<Seq<char>>
    decreases rs.len(),
{
    if rs.len() == 0 {
        Seq::empty()
    } else {
        spec_pending(rs.drop_last()) + if rs.last().needs_approval {
            seq![rs.last().email@]
        } else {
            Seq::empty()
        }
    }
}

/// Collects the e-mail addresses of recipients whose approval is pending,
/// to report why a package is blocked.
pub fn pending_recipients(pkg: &Package) -> (r: Vec<String>)
    ensures
        r@.map_values(|s: String| s@) == spec_pending(pkg.recipients@),
{
    let mut out: Vec<String> = Vec::new();
    let n = pkg.recipients.len();
    let mut i: usize = 0;
    proof {
        assert(pkg.recipients@.subrange(0, 0) =~= Seq::<Recipient>::empty());
        assert(out@.map_values(|s: String| s@) =~= spec_pending(pkg.recipients@.subrange(0, 0)));
    }
    while i < n
        invariant
            i <= n,
            n == pkg.recipients@.len(),
            out@.map_values(|s: String| s@) == spec_pending(pkg.recipients@.subrange(0, i as int)),
        decreases n - i,
    {
        proof {
            let pre = pkg.recipients@.subrange(0, i as int);
            let cur = pkg.recipients@.subrange(0, i as int + 1);
            assert(cur.drop_last() =~= pre);
            assert(cur.last() == pkg.recipients@[i as int]);
        }
        if pkg.recipients[i].needs_approval {
            let email = pkg.recipients[i].email.clone();
            proof {
                assert(email@ == pkg.recipients@[i as int].email@);
            }
            out.push(email);
            proof {
                assert(out@.map_values(|s: String| s@) =~= spec_pending(
                    pkg.recipients@.subrange(0, i as int + 1),
                ));
            }
        } else {
            proof {
                assert(out@.map_values(|s: String| s@) =~= spec_pending(
                    pkg.recipients@.subrange(0, i as int + 1),
                ));
            }
        }
        i = i + 1;
    }
    proof {
        assert(pkg.recipients@.subrange(0, n as int) =~= pkg.recipients@);
    }
    out
}

} // verus!
