use vstd::prelude::*;

use crate::device::Device;
use crate::filesystem::Filesystem;
use crate::naming::{replace_char, replaced, today};

verus! {

/// A single copy of a device into a dated image at the root of a mounted
/// filesystem, with no retention and no checks.
pub struct BackUp<'a> {
    pub dst_filesystem: &'a Filesystem,
    pub back_up_device: &'a Device,
    /// The date that the image name carries.
    pub date: String,
}

/// The known parts of an image name, joined by `-`.
pub open spec fn dashed(parts: Seq<Option<String>>) -> Seq<char>
    decreases parts.len(),
{
    if parts.len() == 0 {
        Seq::empty()
    } else {
        let rest = dashed(parts.drop_last());
        match parts.last() {
            Some(p) => if rest.len() == 0 && !has_some(parts.drop_last()) {
                p@
            } else {
                rest + seq!['-'] + p@
            },
            None => rest,
        }
    }
}

/// Some part is known.
pub open spec fn has_some(parts: Seq<Option<String>>) -> bool {
    exists|i: int| 0 <= i < parts.len() && #[trigger] parts[i] is Some
}

/// `<model>-<serial>-<date>.img`, leaving out what is unknown, with spaces
/// as underscores.
pub open spec fn image_name(model: Option<String>, serial: Option<String>, date: String) -> Seq<char> {
    replaced(dashed(seq![model, serial, Some(date)]), ' ', '_') + seq!['.', 'i', 'm', 'g']
}

impl<'a> BackUp<'a> {
    /// Prepares the copy of a device onto a filesystem, dated today.
    pub fn new(dst_filesystem: &'a Filesystem, back_up_device: &'a Device) -> (r: BackUp<'a>)
        ensures
            r.dst_filesystem == dst_filesystem,
            r.back_up_device == back_up_device,
    {
        BackUp { dst_filesystem, back_up_device, date: today() }
    }

    /// The device to read.
    pub fn input_file_path(&self) -> (r: String)
        ensures
            r == self.back_up_device.device_path,
    {
        self.back_up_device.device_path.clone()
    }

    /// The image to write: the image name under the mount point.
    pub fn output_file_path(&self) -> (r: String)
        requires
            self.dst_filesystem.blockdevice.mountpoint is Some,
        ensures
            r@ == self.dst_filesystem.blockdevice.mountpoint->0@ + seq!['/'] + image_name(
                self.back_up_device.blockdevice.model,
                self.back_up_device.blockdevice.serial,
                self.date,
            ),
    {
        let mountpoint = match &self.dst_filesystem.blockdevice.mountpoint {
            Some(m) => m.clone(),
            None => {
                proof {
                    assert(false);
                }
                String::new()
            },
        };
        let sep = "/";
        proof {
            reveal_strlit("/");
        }
        let name = self.file_name();
        mountpoint.concat(sep).concat(name.as_str())
    }

    /// The image name: `<model>-<serial>-<date>.img`, leaving out what is
    /// unknown, with spaces as underscores.
    pub fn file_name(&self) -> (r: String)
        ensures
            r@ == image_name(
                self.back_up_device.blockdevice.model,
                self.back_up_device.blockdevice.serial,
                self.date,
            ),
    {
        let parts: Vec<Option<String>> = vec![
            crate::block_device::copy_opt(&self.back_up_device.blockdevice.model),
            crate::block_device::copy_opt(&self.back_up_device.blockdevice.serial),
            Some(self.date.clone()),
        ];
        let joined = join_dashed(&parts);
        assert(parts@ =~= seq![
            self.back_up_device.blockdevice.model,
            self.back_up_device.blockdevice.serial,
            Some(self.date),
        ]);
        let ext = ".img";
        proof {
            reveal_strlit(".img");
        }
        replace_char(joined.as_str(), ' ', '_').concat(ext)
    }
}

/// Joins the known parts with `-`.
pub fn join_dashed(parts: &Vec<Option<String>>) -> (r: String)
    ensures
        r@ == dashed(parts@),
{
    let mut out = String::new();
    let mut any = false;
    let mut i: usize = 0;
    while i < parts.len()
        invariant
            i <= parts@.len(),
            out@ == dashed(parts@.take(i as int)),
            any == has_some(parts@.take(i as int)),
            !any ==> out@.len() == 0,
        decreases parts@.len() - i,
    {
        let ghost pre = parts@.take(i as int);
        let ghost post = parts@.take(i as int + 1);
        assert(post.drop_last() =~= pre);
        assert(post.last() == parts@[i as int]);
        match &parts[i] {
            Some(p) => {
                if any {
                    let sep = "-";
                    proof {
                        reveal_strlit("-");
                    }
                    out = out.concat(sep).concat(p.as_str());
                } else {
                    out = out.concat(p.as_str());
                }
                assert(post[i as int] is Some);
                any = true;
            },
            None => {
                assert(has_some(post) == has_some(pre)) by {
                    if has_some(post) {
                        let j = choose|j: int| 0 <= j < post.len() && #[trigger] post[j] is Some;
                        assert(pre[j] is Some);
                    }
                    if has_some(pre) {
                        let j = choose|j: int| 0 <= j < pre.len() && #[trigger] pre[j] is Some;
                        assert(post[j] is Some);
                    }
                }
            },
        }
        i = i + 1;
    }
    assert(parts@.take(parts@.len() as int) =~= parts@);
    out
}

} // verus!
