//! Filesystem capability: the open-options contract.
//!
//! The operations themselves are path-based I/O an engine performs; what
//! this layer pins down is the builder describing how a file is opened
//! and the rules that constrain its flags. The builder is consumed by
//! the engine's open call, which receives the resolved directive.

use vstd::prelude::*;

verus! {

/// The flags an invalid combination of open options breaks: a creating
/// or truncating open needs write or append access, truncating an
/// append-mode file is refused, and some access must be requested.
#[derive(Debug)]
pub struct InvalidOptions {
    seal: (),
}

/// What an open call, handed a valid set of options, asks of the
/// filesystem.
#[derive(Debug, PartialEq, Eq, Structural)]
pub struct OpenDirective {
    /// Read access.
    pub readable: bool,
    /// Write access, whether overwriting or appending.
    pub writable: bool,
    /// Writes go to the end of the file.
    pub appends: bool,
    /// Create the file if it does not exist.
    pub creates: bool,
    /// Fail if the file exists; no file may be at the target location.
    pub exclusive: bool,
    /// Truncate the file to zero length if it exists.
    pub truncates: bool,
}

/// Options and flags configuring how a file is opened; a builder
/// consumed exactly once by the open call.
pub struct OpenOptions {
    read: bool,
    write: bool,
    append: bool,
    truncate: bool,
    create: bool,
    create_new: bool,
}

impl OpenOptions {
    /// Read access was requested.
    pub closed spec fn is_read(&self) -> bool {
        self.read
    }

    /// Write access was requested.
    pub closed spec fn is_write(&self) -> bool {
        self.write
    }

    /// Append mode was requested.
    pub closed spec fn is_append(&self) -> bool {
        self.append
    }

    /// Truncation was requested.
    pub closed spec fn is_truncate(&self) -> bool {
        self.truncate
    }

    /// Creation was requested.
    pub closed spec fn is_create(&self) -> bool {
        self.create
    }

    /// Exclusive creation was requested.
    pub closed spec fn is_create_new(&self) -> bool {
        self.create_new
    }

    /// The rules a combination of flags must satisfy to describe an
    /// open the filesystem can perform: creating or truncating needs
    /// write or append access, truncation contradicts append mode, and
    /// at least one kind of access must be requested.
    pub open spec fn valid(&self) -> bool {
        &&& ((self.is_create() || self.is_create_new() || self.is_truncate()) ==> (
        self.is_write() || self.is_append()))
        &&& !(self.is_append() && self.is_truncate())
        &&& (self.is_read() || self.is_write() || self.is_append())
    }

    /// The directive a valid set of options resolves to. Exclusive
    /// creation makes plain creation and truncation ignored, and append
    /// mode implies write access.
    pub open spec fn directive(&self) -> OpenDirective {
        (OpenDirective {
            readable: self.is_read(),
            writable: self.is_write() || self.is_append(),
            appends: self.is_append(),
            creates: self.is_create() || self.is_create_new(),
            exclusive: self.is_create_new(),
            truncates: self.is_truncate() && !self.is_create_new(),
        })
    }

    /// Creates a new set of options with every flag cleared.
    pub fn new() -> (o: OpenOptions)
        ensures
            !o.is_read(),
            !o.is_write(),
            !o.is_append(),
            !o.is_truncate(),
            !o.is_create(),
            !o.is_create_new(),
    {
        OpenOptions {
            read: false,
            write: false,
            append: false,
            truncate: false,
            create: false,
            create_new: false,
        }
    }

    /// Sets the option for read access.
    pub fn read(&mut self, read: bool)
        ensures
            final(self).is_read() == read,
            final(self).is_write() == old(self).is_write(),
            final(self).is_append() == old(self).is_append(),
            final(self).is_truncate() == old(self).is_truncate(),
            final(self).is_create() == old(self).is_create(),
            final(self).is_create_new() == old(self).is_create_new(),
    {
        self.read = read;
    }

    /// Sets the option for write access.
    pub fn write(&mut self, write: bool)
        ensures
            final(self).is_write() == write,
            final(self).is_read() == old(self).is_read(),
            final(self).is_append() == old(self).is_append(),
            final(self).is_truncate() == old(self).is_truncate(),
            final(self).is_create() == old(self).is_create(),
            final(self).is_create_new() == old(self).is_create_new(),
    {
        self.write = write;
    }

    /// Sets the option for append mode: writes go to the end of the
    /// file instead of overwriting. Setting append alone has the same
    /// effect on the directive as write and append together.
    pub fn append(&mut self, append: bool)
        ensures
            final(self).is_append() == append,
            final(self).is_read() == old(self).is_read(),
            final(self).is_write() == old(self).is_write(),
            final(self).is_truncate() == old(self).is_truncate(),
            final(self).is_create() == old(self).is_create(),
            final(self).is_create_new() == old(self).is_create_new(),
    {
        self.append = append;
    }

    /// Sets the option for truncating the file on open; it takes write
    /// access to resolve.
    pub fn truncate(&mut self, truncate: bool)
        ensures
            final(self).is_truncate() == truncate,
            final(self).is_read() == old(self).is_read(),
            final(self).is_write() == old(self).is_write(),
            final(self).is_append() == old(self).is_append(),
            final(self).is_create() == old(self).is_create(),
            final(self).is_create_new() == old(self).is_create_new(),
    {
        self.truncate = truncate;
    }

    /// Sets the option for creating the file if missing; it takes write
    /// or append access to resolve.
    pub fn create(&mut self, create: bool)
        ensures
            final(self).is_create() == create,
            final(self).is_read() == old(self).is_read(),
            final(self).is_write() == old(self).is_write(),
            final(self).is_append() == old(self).is_append(),
            final(self).is_truncate() == old(self).is_truncate(),
            final(self).is_create_new() == old(self).is_create_new(),
    {
        self.create = create;
    }

    /// Sets the option for always creating a new file: no file may
    /// exist at the target. When set, plain creation and truncation are
    /// ignored.
    pub fn create_new(&mut self, create_new: bool)
        ensures
            final(self).is_create_new() == create_new,
            final(self).is_read() == old(self).is_read(),
            final(self).is_write() == old(self).is_write(),
            final(self).is_append() == old(self).is_append(),
            final(self).is_truncate() == old(self).is_truncate(),
            final(self).is_create() == old(self).is_create(),
    {
        self.create_new = create_new;
    }

    /// Resolves the options into the directive an engine's open call
    /// performs, or the error for a combination the filesystem refuses
    /// — exactly the invalid ones.
    pub fn resolve(&self) -> (r: Result<OpenDirective, InvalidOptions>)
        ensures
            r is Ok <==> self.valid(),
            (r matches Ok(d) ==> d == self.directive()),
    {
        let some_write: bool = self.write || self.append;
        if (self.create || self.create_new || self.truncate) && !some_write {
            Err(InvalidOptions { seal: () })
        } else if self.append && self.truncate {
            Err(InvalidOptions { seal: () })
        } else if !self.read && !some_write {
            Err(InvalidOptions { seal: () })
        } else {
            Ok(
                OpenDirective {
                    readable: self.read,
                    writable: some_write,
                    appends: self.append,
                    creates: self.create || self.create_new,
                    exclusive: self.create_new,
                    truncates: self.truncate && !self.create_new,
                },
            )
        }
    }
}

impl Default for OpenOptions {
    /// The default set of options: every flag cleared.
    fn default() -> (o: Self)
        ensures
            !o.is_read(),
            !o.is_write(),
            !o.is_append(),
            !o.is_truncate(),
            !o.is_create(),
            !o.is_create_new(),
    {
        OpenOptions::new()
    }
}

/// Law: exclusive creation dominates — whenever it is set, the resolved
/// directive never truncates and always creates, whatever the plain
/// creation and truncation flags say.
pub proof fn lemma_create_new_dominates(o: OpenOptions)
    requires
        o.is_create_new(),
    ensures
        !o.directive().truncates,
        o.directive().creates,
        o.directive().exclusive,
{
}

} // verus!
