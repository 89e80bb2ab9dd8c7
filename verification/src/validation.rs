use vstd::prelude::*;

use ash::version::EntryV1_0;

use crate::tool::{lemma_filter_is_subset, lemma_filter_take_step, vk_str, vk_to_string};

verus! {

/// ash's function loader (`ash::Entry` is `EntryCustom` over the loaded
/// Vulkan library); opaque here, only handed through to driver calls.
#[verifier::external_type_specification]
#[verifier::external_body]
#[verifier::reject_recursive_types(L)]
pub struct ExEntryCustom<L>(ash::EntryCustom<L>);

/// A raw Vulkan status code (`ash::vk::Result`); opaque here, only carried
/// inside errors.
#[verifier::external_type_specification]
#[verifier::external_body]
pub struct ExVkResult(ash::vk::Result);

/// Relies on ash's `EntryV1_0::enumerate_instance_layer_properties`
/// (vkEnumerateInstanceLayerProperties): on success the driver reports one
/// record per installed layer, each carrying the layer's name as a
/// NUL-terminated array of 256 bytes. Which layers are installed depends on
/// the machine, so nothing is said of the names' contents.
#[verifier::external_body]
fn enumerate_layer_names<L>(entry: &ash::EntryCustom<L>) -> (r: Result<Vec<Vec<i8>>, ash::vk::Result>)
    ensures
        r matches Ok(names) ==> forall|i: int|
            0 <= i < names@.len() ==> (#[trigger] names@[i])@.len() == 256,
{
    entry.enumerate_instance_layer_properties().map(|props| {
        props.iter().map(|p| p.layer_name.to_vec()).collect()
    })
}

/// Why enabling validation failed.
#[derive(Debug)]
pub enum ValidationError {
    /// The driver could not list its layers; the raw Vulkan status is kept.
    EnumerateFailed(ash::vk::Result),
    /// These wanted layers are not provided by the driver.
    MissingLayers(Vec<String>),
}

/// The wanted layers that do not occur among the provided ones, in order.
pub open spec fn spec_missing(wanted: Seq<Seq<char>>, provided: Seq<Seq<char>>) -> Seq<Seq<char>> {
    wanted.filter(|w: Seq<char>| !provided.contains(w))
}

/// The missing list is empty exactly when every wanted layer occurs among
/// the provided ones.
pub proof fn lemma_no_missing_iff_all_provided(wanted: Seq<Seq<char>>, provided: Seq<Seq<char>>)
    ensures
        spec_missing(wanted, provided).len() == 0 <==> (forall|i: int|
            0 <= i < wanted.len() ==> provided.contains(#[trigger] wanted[i])),
    decreases wanted.len(),
{
    reveal(Seq::filter);
    if wanted.len() > 0 {
        lemma_no_missing_iff_all_provided(wanted.drop_last(), provided);
        assert(forall|i: int|
            0 <= i < wanted.len() - 1 ==> #[trigger] wanted[i] == wanted.drop_last()[i]);
    }
}

/// Whether some element of `provided` equals `wanted`, as strings.
pub fn contains_string(provided: &Vec<String>, wanted: &String) -> (r: bool)
    ensures
        r == provided.deep_view().contains(wanted@),
{
    let mut k: usize = 0;
    while k < provided.len()
        invariant
            0 <= k <= provided.len(),
            forall|j: int| 0 <= j < k ==> provided.deep_view()[j] != wanted@,
        decreases provided.len() - k,
    {
        if provided[k].eq(wanted) {
            assert(provided.deep_view()[k as int] == wanted@);
            return true;
        }
        k = k + 1;
    }
    false
}

/// Collects the wanted layers that the driver does not provide, in order.
pub fn check_wanted_are_provided(wanted: &Vec<String>, provided: &Vec<String>) -> (missing: Vec<
    String,
>)
    ensures
        missing.deep_view() == spec_missing(wanted.deep_view(), provided.deep_view()),
{
    let ghost pred = |w: Seq<char>| !provided.deep_view().contains(w);
    let mut missing: Vec<String> = Vec::new();
    let mut k: usize = 0;
    proof {
        reveal(Seq::filter);
        assert(missing.deep_view() =~= wanted.deep_view().take(0).filter(pred));
    }
    while k < wanted.len()
        invariant
            0 <= k <= wanted.len(),
            missing.deep_view() == wanted.deep_view().take(k as int).filter(pred),
            pred == (|w: Seq<char>| !provided.deep_view().contains(w)),
        decreases wanted.len() - k,
    {
        let ghost old_missing = missing.deep_view();
        let is_provided = contains_string(provided, &wanted[k]);
        proof {
            lemma_filter_take_step(wanted.deep_view(), pred, k as int);
        }
        if !is_provided {
            missing.push(wanted[k].clone());
            proof {
                assert(missing.deep_view() =~= old_missing.push(wanted.deep_view()[k as int]));
            }
        }
        k = k + 1;
    }
    proof {
        assert(wanted.deep_view().take(k as int) =~= wanted.deep_view());
    }
    missing
}

/// The validation layers the instance and device are created with; building
/// it checks that the driver provides every wanted layer.
#[derive(Clone, Debug)]
pub struct Validation {
    layers: Vec<String>,
}

impl View for Validation {
    type V = Seq<Seq<char>>;

    closed spec fn view(&self) -> Seq<Seq<char>> {
        self.layers.deep_view()
    }
}

/// The enumerated name buffers, decoded: the NUL-terminated prefix of each,
/// as text, in order.
pub open spec fn spec_decoded(names: Seq<Seq<i8>>) -> Seq<Seq<char>> {
    names.map_values(|n: Seq<i8>| vk_str(n))
}

impl Validation {
    /// Decides validation from the driver's reply: succeeds, keeping exactly
    /// the wanted layers, when every wanted layer occurs among the decoded
    /// names; otherwise reports exactly the missing ones.
    pub fn select_layers(wanted_layers: &Vec<String>, names: &Vec<Vec<i8>>) -> (r: Result<
        Validation,
        ValidationError,
    >)
        ensures
            r is Ok <==> spec_missing(
                wanted_layers.deep_view(),
                spec_decoded(names.deep_view()),
            ).len() == 0,
            r matches Ok(v) ==> v@ == wanted_layers.deep_view(),
            r matches Err(e) ==> (e matches ValidationError::MissingLayers(m) && m.deep_view()
                == spec_missing(wanted_layers.deep_view(), spec_decoded(names.deep_view()))),
    {
        let ghost decoded = spec_decoded(names.deep_view());
        let mut provided: Vec<String> = Vec::new();
        let mut k: usize = 0;
        while k < names.len()
            invariant
                0 <= k <= names.len(),
                decoded == spec_decoded(names.deep_view()),
                provided.deep_view() =~= decoded.take(k as int),
            decreases names.len() - k,
        {
            let ghost old_provided = provided.deep_view();
            let name = vk_to_string(names[k].as_slice());
            provided.push(name);
            proof {
                assert(names.deep_view()[k as int] =~= names@[k as int]@);
                assert(provided.deep_view() =~= old_provided.push(decoded[k as int]));
            }
            k = k + 1;
        }
        proof {
            assert(decoded.take(k as int) =~= decoded);
            assert(provided.deep_view() == decoded);
        }
        let missing = check_wanted_are_provided(wanted_layers, &provided);
        if missing.len() > 0 {
            return Err(ValidationError::MissingLayers(missing));
        }
        let mut layers: Vec<String> = Vec::new();
        let mut k: usize = 0;
        while k < wanted_layers.len()
            invariant
                0 <= k <= wanted_layers.len(),
                layers.deep_view() =~= wanted_layers.deep_view().take(k as int),
            decreases wanted_layers.len() - k,
        {
            let ghost old_layers = layers.deep_view();
            layers.push(wanted_layers[k].clone());
            proof {
                assert(layers.deep_view() =~= old_layers.push(wanted_layers.deep_view()[k as int]));
            }
            k = k + 1;
        }
        proof {
            assert(wanted_layers.deep_view().take(k as int) =~= wanted_layers.deep_view());
        }
        Ok(Validation { layers })
    }

    /// Asks the driver for its layers and hands the reply to
    /// `select_layers`: on success the kept layers are exactly the wanted
    /// ones; a missing-layer error lists some of the wanted ones.
    pub fn new<L>(wanted_layers: &Vec<String>, entry: &ash::EntryCustom<L>) -> (r: Result<
        Validation,
        ValidationError,
    >)
        ensures
            r matches Ok(v) ==> v@ == wanted_layers.deep_view(),
            r matches Err(ValidationError::MissingLayers(m)) ==> m@.len() > 0 && forall|i: int|
                0 <= i < m.deep_view().len() ==> wanted_layers.deep_view().contains(
                    #[trigger] m.deep_view()[i],
                ),
    {
        let names = match enumerate_layer_names(entry) {
            Ok(names) => names,
            Err(code) => {
                return Err(ValidationError::EnumerateFailed(code));
            },
        };
        let r = Self::select_layers(wanted_layers, &names);
        proof {
            if r is Err {
                lemma_filter_is_subset(
                    wanted_layers.deep_view(),
                    |w: Seq<char>| !spec_decoded(names.deep_view()).contains(w),
                );
            }
        }
        r
    }

    /// The layer names the validation setup was built with.
    pub fn layers(&self) -> (r: &Vec<String>)
        ensures
            r.deep_view() == self@,
    {
        &self.layers
    }
}

} // verus!
