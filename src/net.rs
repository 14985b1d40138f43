use vstd::prelude::*;

verus! {

/// An IP address as its octets, in network order.
#[derive(Debug, Clone, Copy)]
pub enum IpAddr {
    V4([u8; 4]),
    V6([u8; 16]),
}

/// Two addresses are the same when they belong to one family and have the
/// same octets; an IPv4 address never equals an IPv6 one, mapped or not.
pub open spec fn same_address(a: IpAddr, b: IpAddr) -> bool {
    match (a, b) {
        (IpAddr::V4(x), IpAddr::V4(y)) => x@ == y@,
        (IpAddr::V6(x), IpAddr::V6(y)) => x@ == y@,
        _ => false,
    }
}

fn octets_equal(a: &[u8], b: &[u8]) -> (r: bool)
    ensures
        r == (a@ == b@),
{
    if a.len() != b.len() {
        return false;
    }
    let mut i: usize = 0;
    while i < a.len()
        invariant
            a@.len() == b@.len(),
            0 <= i <= a@.len(),
            forall|j: int| 0 <= j < i ==> a@[j] == b@[j],
        decreases a@.len() - i,
    {
        if a[i] != b[i] {
            return false;
        }
        i = i + 1;
    }
    assert(a@ =~= b@);
    true
}

pub fn is_ip_same(lhs: &IpAddr, rhs: &IpAddr) -> (r: bool)
    ensures
        r == same_address(*lhs, *rhs),
{
    match lhs {
        IpAddr::V4(lhs4) => match rhs {
            IpAddr::V4(rhs4) => octets_equal(lhs4.as_slice(), rhs4.as_slice()),
            IpAddr::V6(_) => false,
        },
        IpAddr::V6(lhs6) => match rhs {
            IpAddr::V4(_) => false,
            IpAddr::V6(rhs6) => octets_equal(lhs6.as_slice(), rhs6.as_slice()),
        },
    }
}

/// The addresses webhook calls may come from; `None` leaves them
/// unrestricted, which is not the same as an empty list (which admits none).
pub struct Domain(pub Option<Vec<IpAddr>>);

impl Domain {
    pub fn new(domain: Option<Vec<IpAddr>>) -> (r: Domain)
        ensures
            r.0 == domain,
    {
        Domain(domain)
    }

    /// Whether a caller at `ip` (`None`: unknown) may call.
    pub open spec fn admits(&self, ip: Option<IpAddr>) -> bool {
        match self.0 {
            None => true,
            Some(list) => match ip {
                None => false,
                Some(a) => exists|i: int| 0 <= i < list@.len() && same_address(list@[i], a),
            },
        }
    }

    pub fn allows(&self, ip: Option<IpAddr>) -> (r: bool)
        ensures
            r == self.admits(ip),
    {
        match &self.0 {
            None => true,
            Some(list) => match ip {
                None => false,
                Some(a) => {
                    let mut i: usize = 0;
                    while i < list.len()
                        invariant
                            self.0 == Some(*list),
                            ip == Some(a),
                            0 <= i <= list@.len(),
                            forall|j: int| 0 <= j < i ==> !same_address(list@[j], a),
                        decreases list@.len() - i,
                    {
                        if is_ip_same(&list[i], &a) {
                            assert(self.0->0@ == list@);
                            assert(same_address(self.0->0@[i as int], a));
                            return true;
                        }
                        i = i + 1;
                    }
                    false
                },
            },
        }
    }
}

/// IP comparison never relates the two families.
pub proof fn lemma_families_never_equal(a: [u8; 4], b: [u8; 16])
    ensures
        !same_address(IpAddr::V4(a), IpAddr::V6(b)),
        !same_address(IpAddr::V6(b), IpAddr::V4(a)),
{
}

} // verus!
