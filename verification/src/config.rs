use vstd::prelude::*;

use crate::device::DeviceType;
use crate::error::Error;

verus! {

/// One configured device: its display name, network address, model tag and
/// the name of the credential entry it authenticates with.
#[derive(Debug, Clone)]
pub struct Device {
    pub name: String,
    pub ip: String,
    pub device: DeviceType,
    pub credential: String,
}

/// A named login, looked up by `Device::credential`.
#[derive(Debug, Clone)]
pub struct Credential {
    pub name: String,
    pub username: String,
    pub password: String,
}

/// The static configuration: the device list, the credential list, and the
/// polling interval in seconds.
#[derive(Debug)]
pub struct Config {
    pub devices: Vec<Device>,
    pub credentials: Vec<Credential>,
    pub interval: u64,
}

impl Config {
    /// The device at position `i` names a credential that some entry provides.
    pub open spec fn resolves(self, i: int) -> bool {
        exists|j: int|
            0 <= j < self.credentials@.len() && self.credentials@[j].name@
                == self.devices@[i].credential@
    }

    /// Every device's credential reference resolves.
    pub open spec fn well_formed(self) -> bool {
        forall|i: int| 0 <= i < self.devices@.len() ==> self.resolves(i)
    }

    /// Whether some credential entry carries the given name.
    fn has_credential(&self, name: &String) -> (found: bool)
        ensures
            found == exists|j: int|
                0 <= j < self.credentials@.len() && self.credentials@[j].name@ == name@,
    {
        let mut j: usize = 0;
        while j < self.credentials.len()
            invariant
                j <= self.credentials@.len(),
                forall|k: int| 0 <= k < j ==> self.credentials@[k].name@ != name@,
            decreases self.credentials@.len() - j,
        {
            if self.credentials[j].name == *name {
                return true;
            }
            j += 1;
        }
        false
    }

    /// The first credential entry carrying the given name, if any.
    pub fn credential_for(&self, name: &String) -> (r: Option<&Credential>)
        ensures
            (r is Some) <==> (exists|j: int|
                0 <= j < self.credentials@.len() && self.credentials@[j].name@ == name@),
            (match r {
                Some(c) => exists|j: int|
                    {
                        &&& 0 <= j < self.credentials@.len()
                        &&& self.credentials@[j] == *c
                        &&& self.credentials@[j].name@ == name@
                        &&& forall|k: int| 0 <= k < j ==> self.credentials@[k].name@ != name@
                    },
                None => true,
            }),
    {
        let mut j: usize = 0;
        while j < self.credentials.len()
            invariant
                j <= self.credentials@.len(),
                forall|k: int| 0 <= k < j ==> self.credentials@[k].name@ != name@,
            decreases self.credentials@.len() - j,
        {
            if self.credentials[j].name == *name {
                return Some(&self.credentials[j]);
            }
            j += 1;
        }
        None
    }

    /// Checks the one structural invariant of a configuration: every device's
    /// credential reference must resolve to a credential entry.  Returns
    /// `Err(Error::InvalidConfig)` exactly when some device's reference does
    /// not.
    pub fn validate(&self) -> (r: Result<(), Error>)
        ensures
            r is Ok <==> self.well_formed(),
            r is Err ==> r == Err::<(), Error>(Error::InvalidConfig),
    {
        let mut i: usize = 0;
        while i < self.devices.len()
            invariant
                i <= self.devices@.len(),
                forall|k: int| 0 <= k < i ==> self.resolves(k),
            decreases self.devices@.len() - i,
        {
            if !self.has_credential(&self.devices[i].credential) {
                assert(!self.resolves(i as int));
                return Err(Error::InvalidConfig);
            }
            i += 1;
        }
        Ok(())
    }
}

/// Under a validated configuration no startup lookup fails: every configured
/// device's credential reference finds an entry.
pub proof fn lemma_validated_lookup_succeeds(c: Config, i: int)
    requires
        c.well_formed(),
        0 <= i < c.devices@.len(),
    ensures
        exists|j: int|
            0 <= j < c.credentials@.len() && c.credentials@[j].name@
                == c.devices@[i].credential@,
{
    assert(c.resolves(i));
}

} // verus!
