//! The daemon's configuration: the node's identity, where the inventory
//! store and the front ends listen, and the scripts of each backend.

use crate::error::{Error, ErrorKind};
use vstd::prelude::*;

verus! {

/// Settings of the node as a whole.
#[derive(Debug)]
pub struct Global {
    /// The identifier of this node.
    pub node: i32,
}

/// Where the inventory store is reached.
#[derive(Debug)]
pub struct Database {
    pub host: String,
    pub port: u16,
}

/// The UDP front end.
#[derive(Debug)]
pub struct UDP {
    /// The address to listen on.
    pub addr: String,
}

/// The HTTP front end.
#[derive(Debug)]
pub struct HTTP {
    /// The address to listen on.
    pub addr: String,
}

/// The image scripts of a backend. A verb without a path is a no-op.
#[derive(Debug)]
pub struct BackendImage {
    /// The directory in which the backend keeps its images.
    pub path: String,
    pub create: Option<String>,
    pub delete: Option<String>,
}

/// The machine scripts of a backend. A verb without a path is a no-op.
#[derive(Debug)]
pub struct BackendVM {
    pub create: Option<String>,
    pub start: Option<String>,
    pub stop: Option<String>,
    pub delete: Option<String>,
    pub status: Option<String>,
    pub snapshot_create: Option<String>,
    pub snapshot_restore: Option<String>,
    pub snapshot_delete: Option<String>,
}

/// A hypervisor integration, under the name that images and machines use.
#[derive(Debug)]
pub struct Backend {
    pub name: String,
    pub image: BackendImage,
    pub vm: BackendVM,
}

/// The whole configuration.
#[derive(Debug)]
pub struct Config {
    pub global: Global,
    pub database: Database,
    pub udp: Option<UDP>,
    pub http: Option<HTTP>,
    pub backend: Vec<Backend>,
}

/// The first position at or after `i` of a backend called `name`, or the
/// length of `backends` when none is called so.
pub open spec fn backend_index(backends: Seq<Backend>, name: Seq<char>, i: int) -> int
    decreases backends.len() - i,
{
    if 0 <= i < backends.len() && backends[i].name@ != name {
        backend_index(backends, name, i + 1)
    } else {
        i
    }
}

/// The path under which a backend keeps the image called `name`.
pub open spec fn image_path_text(directory: Seq<char>, name: Seq<char>) -> Seq<char> {
    directory + "/"@ + name + ".image"@
}

/// The path of the disk of the machine called `name`.
pub open spec fn vm_disk_text(backend: Seq<char>, name: Seq<char>) -> Seq<char> {
    "/var/lib/wir/olvm/vms/"@ + backend + "/"@ + name + "/disk.data"@
}

impl Config {
    /// Whether a backend called `name` is configured.
    pub open spec fn has_backend(&self, name: Seq<char>) -> bool {
        backend_index(self.backend@, name, 0) < self.backend@.len()
    }

    /// The first configured backend called `name`.
    pub open spec fn backend_named(&self, name: Seq<char>) -> Backend
        recommends
            self.has_backend(name),
    {
        self.backend@[backend_index(self.backend@, name, 0)]
    }

    /// The first backend called `backend`, if one is configured.
    pub fn get_backend(&self, backend: &str) -> (r: Option<&Backend>)
        ensures
            match r {
                Some(b) => self.has_backend(backend@) && *b == self.backend_named(backend@),
                None => !self.has_backend(backend@),
            },
    {
        let wanted = String::from_str(backend);
        let mut i: usize = 0;
        while i < self.backend.len()
            invariant
                i <= self.backend@.len(),
                wanted@ == backend@,
                backend_index(self.backend@, backend@, 0) == backend_index(
                    self.backend@,
                    backend@,
                    i as int,
                ),
            decreases self.backend@.len() - i,
        {
            if self.backend[i].name == wanted {
                return Some(&self.backend[i]);
            }
            i += 1;
        }
        None
    }

    /// The path at which the backend called `backend` keeps the image called
    /// `name`: its image directory, `/`, the name and `.image`. Fails when
    /// no such backend is configured.
    pub fn get_image_path(&self, backend: &str, name: &str) -> (r: Result<String, Error>)
        ensures
            match r {
                Ok(path) => self.has_backend(backend@) && path@ == image_path_text(
                    self.backend_named(backend@).image.path@,
                    name@,
                ),
                Err(e) => !self.has_backend(backend@) && e.kind == ErrorKind::UnknownBackend
                    && e.message@ == "Unknown backend"@,
            },
    {
        match self.get_backend(backend) {
            Some(b) => {
                let mut path = b.image.path.clone();
                path.append("/");
                path.append(name);
                path.append(".image");
                Ok(path)
            },
            None => Err(Error::new(ErrorKind::UnknownBackend, "Unknown backend")),
        }
    }

    /// The path of the disk of the machine called `name` on `backend`.
    pub fn get_vm_disk(&self, backend: &str, name: &str) -> (r: Result<String, Error>)
        ensures
            r matches Ok(path) && path@ == vm_disk_text(backend@, name@),
    {
        Ok(vm_disk(backend, name))
    }
}

/// The path of the disk of the machine called `name` on `backend`.
pub fn vm_disk(backend: &str, name: &str) -> (r: String)
    ensures
        r@ == vm_disk_text(backend@, name@),
{
    let mut path = String::from_str("/var/lib/wir/olvm/vms/");
    path.append(backend);
    path.append("/");
    path.append(name);
    path.append("/disk.data");
    path
}

} // verus!
