use vstd::prelude::*;

use crate::tool::{lemma_filter_take_step, vk_str, vk_to_string};

verus! {

/// The one device extension the logical device asks for when the driver
/// offers it.
pub open spec fn required_extension_name() -> Seq<char> {
    "VK_KHR_portability_subset"@
}

/// The names among `available` (each a NUL-terminated byte buffer) that
/// decode to the required extension name, in order.
pub open spec fn spec_required_extensions(available: Seq<Seq<i8>>) -> Seq<Seq<char>> {
    available.map_values(|n: Seq<i8>| vk_str(n)).filter(
        |s: Seq<char>| s == required_extension_name(),
    )
}

/// Keeps those of the driver's extension names that equal the required one.
pub fn get_required_extensions(extensions: &Vec<Vec<i8>>) -> (r: Vec<String>)
    ensures
        r.deep_view() == spec_required_extensions(extensions.deep_view()),
{
    let ghost decoded = extensions.deep_view().map_values(|n: Seq<i8>| vk_str(n));
    let ghost pred = |s: Seq<char>| s == required_extension_name();
    let required: String = "VK_KHR_portability_subset".to_owned();
    let mut r: Vec<String> = Vec::new();
    let mut k: usize = 0;
    proof {
        reveal(Seq::filter);
        assert(r.deep_view() =~= decoded.take(0).filter(pred));
    }
    while k < extensions.len()
        invariant
            0 <= k <= extensions.len(),
            decoded == extensions.deep_view().map_values(|n: Seq<i8>| vk_str(n)),
            pred == (|s: Seq<char>| s == required_extension_name()),
            required@ == required_extension_name(),
            r.deep_view() == decoded.take(k as int).filter(pred),
        decreases extensions.len() - k,
    {
        let ghost old_r = r.deep_view();
        let name = vk_to_string(extensions[k].as_slice());
        proof {
            assert(extensions.deep_view()[k as int] =~= extensions@[k as int]@);
            assert(name@ == decoded[k as int]);
            lemma_filter_take_step(decoded, pred, k as int);
        }
        if name.eq(&required) {
            r.push(name);
            proof {
                assert(r.deep_view() =~= old_r.push(decoded[k as int]));
            }
        }
        k = k + 1;
    }
    proof {
        assert(decoded.take(k as int) =~= decoded);
    }
    r
}

/// The device extensions the logical device is created with: exactly the
/// required ones the driver makes available.
#[derive(Clone, Debug)]
pub struct DeviceExtensions {
    extensions: Vec<String>,
}

impl View for DeviceExtensions {
    type V = Seq<Seq<char>>;

    closed spec fn view(&self) -> Seq<Seq<char>> {
        self.extensions.deep_view()
    }
}

impl Default for DeviceExtensions {
    /// An empty extension list.
    fn default() -> (r: Self)
        ensures
            r@ == Seq::<Seq<char>>::empty(),
    {
        let r = DeviceExtensions { extensions: Vec::new() };
        proof {
            assert(r@ =~= Seq::<Seq<char>>::empty());
        }
        r
    }
}

impl DeviceExtensions {
    /// Selects, from the extension names the driver reported for a physical
    /// device, those the logical device will be created with.
    pub fn new(available: &Vec<Vec<i8>>) -> (r: Self)
        ensures
            r@ == spec_required_extensions(available.deep_view()),
    {
        DeviceExtensions { extensions: get_required_extensions(available) }
    }

    /// The chosen extension names.
    pub fn extensions(&self) -> (r: &Vec<String>)
        ensures
            r.deep_view() == self@,
    {
        &self.extensions
    }
}

} // verus!
