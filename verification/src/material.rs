//! Materials: a shader and the values given to its named inputs.
//!
//! A material is made for one shader and has one slot for each input that
//! the shader declares. A slot is either left at the shader's default or
//! holds an override of its own kind. Setting a name that the shader does not
//! declare, or a value of another kind than the slot's, changes nothing and
//! is reported by the result; it is never an error.

use vstd::prelude::*;
use crate::math::{Color, Scalar};
use crate::texture::GpuTexture;

verus! {

/// The kinds of input that a shader can declare.
#[derive(Debug, Clone, Copy, PartialEq, Eq, Hash, Structural)]
pub enum PropertyKind {
    Color,
    F32,
    Texture,
}

/// A value for one input of a shader.
#[derive(Debug, Clone, Copy, PartialEq, Eq, Hash, Structural)]
pub enum MaterialProperty {
    Color(Color),
    F32(Scalar),
    Texture(GpuTexture),
}

impl MaterialProperty {
    /// The kind of slot that can hold this value.
    pub open spec fn spec_kind(self) -> PropertyKind {
        match self {
            MaterialProperty::Color(_) => PropertyKind::Color,
            MaterialProperty::F32(_) => PropertyKind::F32,
            MaterialProperty::Texture(_) => PropertyKind::Texture,
        }
    }

    /// The kind of slot that can hold this value.
    #[verifier::when_used_as_spec(spec_kind)]
    pub fn kind(self) -> (kind: PropertyKind)
        ensures
            kind == self.spec_kind(),
    {
        match self {
            MaterialProperty::Color(_) => PropertyKind::Color,
            MaterialProperty::F32(_) => PropertyKind::F32,
            MaterialProperty::Texture(_) => PropertyKind::Texture,
        }
    }
}

/// Why a material could not be built from its source.
#[derive(Debug, Clone, Copy, PartialEq, Eq, Hash, Structural)]
pub enum MaterialBuildError {
    /// The source names a shader that the renderer does not know.
    UnknownShader,
    /// The declaration at `index` has an empty name.
    UnnamedProperty { index: usize },
    /// The declaration at `index` repeats the name of an earlier one.
    DuplicateProperty { index: usize },
}

/// One input that a material source declares.
#[derive(Debug, Clone, PartialEq, Eq)]
pub struct PropertyDecl {
    pub name: String,
    pub kind: PropertyKind,
}

/// One declared input: its name and its kind.
pub struct DeclView {
    pub name: Seq<char>,
    pub kind: PropertyKind,
}

impl View for PropertyDecl {
    type V = DeclView;

    open spec fn view(&self) -> DeclView {
        DeclView { name: self.name@, kind: self.kind }
    }
}

/// The description of a material: the shader it is made for and the inputs
/// which that shader exposes, in the order of their declaration.
#[derive(Debug, Clone, PartialEq, Eq)]
pub struct MaterialSource {
    pub shader: String,
    pub properties: Vec<PropertyDecl>,
}

/// What a material source says.
pub struct SourceView {
    pub shader: Seq<char>,
    pub properties: Seq<DeclView>,
}

impl View for MaterialSource {
    type V = SourceView;

    open spec fn view(&self) -> SourceView {
        SourceView {
            shader: self.shader@,
            properties: Seq::new(self.properties@.len(), |i: int| self.properties@[i]@),
        }
    }
}

/// What is wrong with the declaration at `index`, if anything: it has no
/// name, or an earlier declaration has the same name.
pub open spec fn decl_fault(decls: Seq<DeclView>, index: int) -> Option<MaterialBuildError> {
    if decls[index].name.len() == 0 {
        Some(MaterialBuildError::UnnamedProperty { index: index as usize })
    } else if exists|earlier: int| 0 <= earlier < index && decls[earlier].name == decls[index].name {
        Some(MaterialBuildError::DuplicateProperty { index: index as usize })
    } else {
        None
    }
}

/// The fault of the first faulty declaration among the first `count`.
pub open spec fn first_fault(decls: Seq<DeclView>, count: nat) -> Option<MaterialBuildError>
    decreases count,
{
    if count == 0 {
        None
    } else {
        match first_fault(decls, (count - 1) as nat) {
            Some(fault) => Some(fault),
            None => decl_fault(decls, count - 1),
        }
    }
}

/// Why the declarations of a source can not make a material, if they can not.
pub open spec fn source_fault(source: SourceView) -> Option<MaterialBuildError> {
    first_fault(source.properties, source.properties.len())
}

/// One slot of a material: a declared input and its override, if it has one.
pub struct SlotView {
    pub name: Seq<char>,
    pub kind: PropertyKind,
    pub value: Option<MaterialProperty>,
}

/// What a material is: its shader and its slots, in the order in which the
/// shader declares them.
pub struct MaterialView {
    pub shader: Seq<char>,
    pub slots: Seq<SlotView>,
}

impl MaterialView {
    /// No two slots share a name, and every override is of its slot's kind.
    pub open spec fn well_formed(self) -> bool {
        &&& forall|i: int, j: int|
            0 <= i < j < self.slots.len() ==> self.slots[i].name != self.slots[j].name
        &&& forall|i: int|
            0 <= i < self.slots.len() ==> (#[trigger] self.slots[i].value matches Some(value)
                ==> value.spec_kind() == self.slots[i].kind)
    }

    /// The material that a source describes, every slot at its default.
    pub open spec fn fresh(source: SourceView) -> MaterialView {
        MaterialView {
            shader: source.shader,
            slots: Seq::new(
                source.properties.len(),
                |i: int|
                    SlotView {
                        name: source.properties[i].name,
                        kind: source.properties[i].kind,
                        value: None,
                    },
            ),
        }
    }

    /// The material for the shader that every renderer knows from the
    /// start: a surface colour, a specular colour and a shininess, each at
    /// its default.
    pub open spec fn baseline() -> MaterialView {
        MaterialView {
            shader: "default"@,
            slots: seq![
                SlotView { name: "surface_color"@, kind: PropertyKind::Color, value: None },
                SlotView { name: "surface_specular"@, kind: PropertyKind::Color, value: None },
                SlotView { name: "surface_shininess"@, kind: PropertyKind::F32, value: None },
            ],
        }
    }

    /// Whether the slot at `index` is the one that a value of kind `kind`
    /// set under `name` goes to.
    pub open spec fn takes(self, index: int, name: Seq<char>, kind: PropertyKind) -> bool {
        self.slots[index].name == name && self.slots[index].kind == kind
    }

    /// Whether there is a slot called `name` that holds values of `kind`.
    pub open spec fn accepts(self, name: Seq<char>, kind: PropertyKind) -> bool {
        exists|i: int| 0 <= i < self.slots.len() && self.takes(i, name, kind)
    }

    /// The material after `value` was set under `name`: the slot of that
    /// name and of the value's kind holds it, and nothing else has changed.
    pub open spec fn set(self, name: Seq<char>, value: MaterialProperty) -> MaterialView {
        MaterialView {
            shader: self.shader,
            slots: Seq::new(
                self.slots.len(),
                |i: int|
                    if self.takes(i, name, value.spec_kind()) {
                        SlotView { value: Some(value), ..self.slots[i] }
                    } else {
                        self.slots[i]
                    },
            ),
        }
    }

    /// The material after the slot called `name` was put back to its
    /// default; nothing else has changed.
    pub open spec fn reset(self, name: Seq<char>) -> MaterialView {
        MaterialView {
            shader: self.shader,
            slots: Seq::new(
                self.slots.len(),
                |i: int|
                    if self.slots[i].name == name {
                        SlotView { value: None, ..self.slots[i] }
                    } else {
                        self.slots[i]
                    },
            ),
        }
    }

    /// Whether there is a slot called `name`.
    pub open spec fn declares(self, name: Seq<char>) -> bool {
        exists|i: int| 0 <= i < self.slots.len() && self.slots[i].name == name
    }

    /// The override held under `name`; nothing where the slot is at its
    /// default or where there is no such slot.
    pub open spec fn get(self, name: Seq<char>) -> Option<MaterialProperty> {
        if self.declares(name) {
            let i = choose|i: int| 0 <= i < self.slots.len() && self.slots[i].name == name;
            self.slots[i].value
        } else {
            None
        }
    }
}

/// A slot as the material stores it.
#[derive(Debug, PartialEq, Eq)]
struct Slot {
    name: String,
    kind: PropertyKind,
    value: Option<MaterialProperty>,
}

impl View for Slot {
    type V = SlotView;

    closed spec fn view(&self) -> SlotView {
        SlotView { name: self.name@, kind: self.kind, value: self.value }
    }
}

/// A shader together with the values given to its inputs. Every value of
/// the type is well formed in the sense of [`MaterialView::well_formed`].
#[derive(Debug, PartialEq, Eq)]
pub struct Material {
    shader: String,
    slots: Vec<Slot>,
}

impl View for Material {
    type V = MaterialView;

    closed spec fn view(&self) -> MaterialView {
        MaterialView {
            shader: self.shader@,
            slots: Seq::new(self.slots@.len(), |i: int| self.slots@[i]@),
        }
    }
}

impl Clone for Material {
    /// A material with the same shader, the same slots and the same
    /// overrides.
    fn clone(&self) -> (copy: Material)
        ensures
            copy@ == self@,
    {
        proof {
            use_type_invariant(self);
        }
        let mut slots: Vec<Slot> = Vec::new();
        let mut index: usize = 0;
        while index < self.slots.len()
            invariant
                index <= self.slots@.len(),
                slots@.len() == index,
                forall|i: int| 0 <= i < index ==> (#[trigger] slots@[i])@ == self.slots@[i]@,
            decreases self.slots@.len() - index,
        {
            let slot = &self.slots[index];
            slots.push(Slot { name: slot.name.clone(), kind: slot.kind, value: slot.value });
            index += 1;
        }
        assert(Seq::new(slots@.len(), |i: int| slots@[i]@) =~= self@.slots);
        Material { shader: self.shader.clone(), slots }
    }
}

/// A first fault among the first `count` declarations is a first fault among
/// any larger number of them.
proof fn lemma_first_fault_stays(decls: Seq<DeclView>, count: nat, more: nat)
    requires
        count <= more,
        first_fault(decls, count) is Some,
    ensures
        first_fault(decls, more) == first_fault(decls, count),
    decreases more,
{
    if count < more {
        lemma_first_fault_stays(decls, count, (more - 1) as nat);
    }
}

/// Where no declaration is faulty, no two of them share a name.
proof fn lemma_no_fault_distinct(decls: Seq<DeclView>, count: nat)
    requires
        count <= decls.len(),
        first_fault(decls, count) is None,
    ensures
        forall|i: int, j: int| 0 <= i < j < count ==> decls[i].name != decls[j].name,
        forall|i: int| 0 <= i < count ==> decls[i].name.len() > 0,
    decreases count,
{
    if count > 0 {
        lemma_no_fault_distinct(decls, (count - 1) as nat);
        assert(decl_fault(decls, count - 1) is None);
    }
}

/// Where the first `count` declarations are named and no two share a name,
/// none of them is faulty.
proof fn lemma_distinct_no_fault(decls: Seq<DeclView>, count: nat)
    requires
        count <= decls.len(),
        forall|i: int, j: int| 0 <= i < j < count ==> decls[i].name != decls[j].name,
        forall|i: int| 0 <= i < count ==> decls[i].name.len() > 0,
    ensures
        first_fault(decls, count) is None,
    decreases count,
{
    if count > 0 {
        lemma_distinct_no_fault(decls, (count - 1) as nat);
    }
}

/// A source is without fault exactly where every declaration has a name
/// and no two declarations share one; the material built from such a source
/// is well formed.
pub proof fn law_faultless_source(source: SourceView)
    ensures
        source_fault(source) is None <==> {
            &&& forall|i: int|
                0 <= i < source.properties.len() ==> source.properties[i].name.len() > 0
            &&& forall|i: int, j: int|
                0 <= i < j < source.properties.len() ==> source.properties[i].name
                    != source.properties[j].name
        },
        source_fault(source) is None ==> MaterialView::fresh(source).well_formed(),
{
    let decls = source.properties;
    if source_fault(source) is None {
        lemma_no_fault_distinct(decls, decls.len());
    }
    if (forall|i: int| 0 <= i < decls.len() ==> decls[i].name.len() > 0) && (forall|
        i: int,
        j: int,
    | 0 <= i < j < decls.len() ==> decls[i].name != decls[j].name) {
        lemma_distinct_no_fault(decls, decls.len());
    }
}

/// A fault is reported for the first faulty declaration: the declaration
/// that the error points at is faulty, and none before it is.
pub proof fn law_fault_is_the_first(source: SourceView, index: int)
    requires
        source_fault(source) == Some(MaterialBuildError::UnnamedProperty { index: index as usize })
            || source_fault(source) == Some(
            MaterialBuildError::DuplicateProperty { index: index as usize },
        ),
        0 <= index < source.properties.len() <= usize::MAX,
    ensures
        decl_fault(source.properties, index) == source_fault(source),
        forall|earlier: int| 0 <= earlier < index ==> decl_fault(source.properties, earlier) is None,
{
    lemma_fault_position(source.properties, source.properties.len(), index);
}

/// Where the first fault among the first `count` declarations points at
/// `index`, the declaration there has that fault and none before it has one.
proof fn lemma_fault_position(decls: Seq<DeclView>, count: nat, index: int)
    requires
        count <= decls.len() <= usize::MAX,
        0 <= index < decls.len(),
        first_fault(decls, count) == Some(MaterialBuildError::UnnamedProperty { index: index as usize })
            || first_fault(decls, count) == Some(
            MaterialBuildError::DuplicateProperty { index: index as usize },
        ),
    ensures
        index < count,
        decl_fault(decls, index) == first_fault(decls, count),
        forall|earlier: int| 0 <= earlier < index ==> decl_fault(decls, earlier) is None,
    decreases count,
{
    if count > 0 {
        if first_fault(decls, (count - 1) as nat) is Some {
            lemma_fault_position(decls, (count - 1) as nat, index);
        } else {
            assert(decl_fault(decls, count - 1) == first_fault(decls, count));
            assert(index == count - 1);
            assert forall|earlier: int| 0 <= earlier < index implies decl_fault(decls, earlier)
                is None by {
                lemma_faultless_prefix(decls, (count - 1) as nat, earlier);
            }
        }
    }
}

/// Where the first `count` declarations have no fault, none of them has one.
proof fn lemma_faultless_prefix(decls: Seq<DeclView>, count: nat, index: int)
    requires
        first_fault(decls, count) is None,
        0 <= index < count,
    ensures
        decl_fault(decls, index) is None,
    decreases count,
{
    if index < count - 1 {
        lemma_faultless_prefix(decls, (count - 1) as nat, index);
    }
}

impl Material {
    #[verifier::type_invariant]
    spec fn inv(self) -> bool {
        self@.well_formed()
    }

    /// Builds the material that `source` describes, every slot at its
    /// default. Fails where a declaration has no name or repeats an earlier
    /// name, with the fault of the first such declaration. Whether the
    /// shader is known is not looked at here.
    pub fn from_source(source: &MaterialSource) -> (built: Result<Material, MaterialBuildError>)
        ensures
            match built {
                Ok(material) => source_fault(source@) is None && material@ == MaterialView::fresh(
                    source@,
                ),
                Err(error) => source_fault(source@) == Some(error),
            },
    {
        let ghost decls = source@.properties;
        let count = source.properties.len();
        let mut slots: Vec<Slot> = Vec::new();
        let mut index: usize = 0;
        while index < count
            invariant
                count == source.properties@.len(),
                decls == source@.properties,
                index <= count,
                first_fault(decls, index as nat) is None,
                slots@.len() == index,
                forall|i: int|
                    0 <= i < index ==> (#[trigger] slots@[i])@ == (SlotView {
                        name: decls[i].name,
                        kind: decls[i].kind,
                        value: None,
                    }),
            decreases count - index,
        {
            let decl = &source.properties[index];
            assert(decl@ == decls[index as int]);
            if decl.name.as_str().is_empty() {
                let error = MaterialBuildError::UnnamedProperty { index };
                proof {
                    assert(first_fault(decls, (index + 1) as nat) == Some(error));
                    lemma_first_fault_stays(decls, (index + 1) as nat, count as nat);
                }
                return Err(error);
            }
            let mut earlier: usize = 0;
            while earlier < index
                invariant
                    earlier <= index < count,
                    count == source.properties@.len(),
                    decls == source@.properties,
                    *decl == source.properties@[index as int],
                    decl@ == decls[index as int],
                    decls[index as int].name.len() > 0,
                    first_fault(decls, index as nat) is None,
                    forall|i: int| 0 <= i < earlier ==> decls[i].name != decls[index as int].name,
                decreases index - earlier,
            {
                assert(source.properties@[earlier as int]@ == decls[earlier as int]);
                if source.properties[earlier].name == decl.name {
                    let error = MaterialBuildError::DuplicateProperty { index };
                    proof {
                        assert(decl_fault(decls, index as int) == Some(error));
                        assert(first_fault(decls, (index + 1) as nat) == Some(error));
                        lemma_first_fault_stays(decls, (index + 1) as nat, count as nat);
                    }
                    return Err(error);
                }
                earlier += 1;
            }
            assert(decl_fault(decls, index as int) is None);
            slots.push(Slot { name: decl.name.clone(), kind: decl.kind, value: None });
            index += 1;
        }
        proof {
            lemma_no_fault_distinct(decls, count as nat);
        }
        let material = Material { shader: source.shader.clone(), slots };
        assert(material@.slots =~= MaterialView::fresh(source@).slots);
        Ok(material)
    }

    /// The material for the shader that every renderer knows from the
    /// start, every slot at its default.
    pub fn baseline() -> (material: Material)
        ensures
            material@ == MaterialView::baseline(),
    {
        let mut slots: Vec<Slot> = Vec::new();
        slots.push(
            Slot { name: "surface_color".to_owned(), kind: PropertyKind::Color, value: None },
        );
        slots.push(
            Slot { name: "surface_specular".to_owned(), kind: PropertyKind::Color, value: None },
        );
        slots.push(
            Slot { name: "surface_shininess".to_owned(), kind: PropertyKind::F32, value: None },
        );
        proof {
            reveal_strlit("surface_color");
            reveal_strlit("surface_specular");
            reveal_strlit("surface_shininess");
            assert(Seq::new(slots@.len(), |i: int| slots@[i]@) =~= MaterialView::baseline().slots);
            assert("surface_color"@.len() == 13);
            assert("surface_specular"@.len() == 16);
            assert("surface_shininess"@.len() == 17);
        }
        Material { shader: "default".to_owned(), slots }
    }

    /// The identifier of the shader that the material is made for.
    pub fn shader(&self) -> (shader: &str)
        ensures
            shader@ == self@.shader,
    {
        self.shader.as_str()
    }

    /// The number of slots.
    pub fn slot_count(&self) -> (count: usize)
        ensures
            count == self@.slots.len(),
            self@.well_formed(),
    {
        proof {
            use_type_invariant(self);
        }
        self.slots.len()
    }

    /// The name of the slot at `index`.
    pub fn slot_name(&self, index: usize) -> (name: &str)
        requires
            index < self@.slots.len(),
        ensures
            name@ == self@.slots[index as int].name,
    {
        self.slots[index].name.as_str()
    }

    /// The kind of the slot at `index`.
    pub fn slot_kind(&self, index: usize) -> (kind: PropertyKind)
        requires
            index < self@.slots.len(),
        ensures
            kind == self@.slots[index as int].kind,
    {
        self.slots[index].kind
    }

    /// The override in the slot at `index`, if it has one.
    pub fn slot_value(&self, index: usize) -> (value: Option<MaterialProperty>)
        requires
            index < self@.slots.len(),
        ensures
            value == self@.slots[index as int].value,
    {
        self.slots[index].value
    }

    /// The position of the slot called `name`, if there is one.
    fn find(&self, name: &str) -> (found: Option<usize>)
        ensures
            match found {
                Some(index) => index < self@.slots.len() && self@.slots[index as int].name
                    == name@,
                None => !self@.declares(name@),
            },
    {
        let wanted = name.to_owned();
        let mut index: usize = 0;
        while index < self.slots.len()
            invariant
                index <= self.slots@.len(),
                wanted@ == name@,
                forall|i: int| 0 <= i < index ==> self@.slots[i].name != name@,
            decreases self.slots@.len() - index,
        {
            if self.slots[index].name == wanted {
                return Some(index);
            }
            index += 1;
        }
        None
    }

    /// The override held under `name`; nothing where the slot is at its
    /// default or where there is no such slot.
    pub fn get(&self, name: &str) -> (value: Option<MaterialProperty>)
        ensures
            value == self@.get(name@),
    {
        proof {
            use_type_invariant(self);
        }
        match self.find(name) {
            Some(index) => {
                proof {
                    let chosen = choose|i: int|
                        0 <= i < self@.slots.len() && self@.slots[i].name == name@;
                    assert(chosen == index);
                }
                self.slots[index].value
            },
            None => None,
        }
    }

    /// Sets `value` under `name`. The result says whether the material has a
    /// slot of that name and of the value's kind; where it has none, the
    /// material stays as it was.
    pub fn set_property(&mut self, name: &str, value: MaterialProperty) -> (accepted: bool)
        ensures
            accepted == old(self)@.accepts(name@, value.spec_kind()),
            final(self)@ == old(self)@.set(name@, value),
    {
        proof {
            use_type_invariant(&*self);
        }
        match self.find(name) {
            Some(index) => {
                if self.slots[index].kind == value.kind() {
                    let mut slots: Vec<Slot> = Vec::new();
                    core::mem::swap(&mut self.slots, &mut slots);
                    slots[index].value = Some(value);
                    proof {
                        let before = old(self)@;
                        let after = before.set(name@, value);
                        assert(before.takes(index as int, name@, value.spec_kind()));
                        assert(Seq::new(slots@.len(), |i: int| slots@[i]@) =~= after.slots);
                        assert forall|i: int, j: int| 0 <= i < j < after.slots.len() implies
                            after.slots[i].name != after.slots[j].name by {
                            assert(after.slots[i].name == before.slots[i].name);
                            assert(after.slots[j].name == before.slots[j].name);
                        }
                        assert forall|i: int| 0 <= i < after.slots.len() implies (
                        #[trigger] after.slots[i].value matches Some(held) ==> held.spec_kind()
                            == after.slots[i].kind) by {
                            assert(after.slots[i].kind == before.slots[i].kind);
                            if !before.takes(i, name@, value.spec_kind()) {
                                assert(after.slots[i].value == before.slots[i].value);
                            }
                        }
                        assert(after.well_formed());
                    }
                    core::mem::swap(&mut self.slots, &mut slots);
                    proof {
                        assert(self@.slots =~= old(self)@.set(name@, value).slots);
                    }
                    true
                } else {
                    proof {
                        assert(self@.slots =~= old(self)@.set(name@, value).slots);
                    }
                    false
                }
            },
            None => {
                proof {
                    assert(self@.slots =~= old(self)@.set(name@, value).slots);
                }
                false
            },
        }
    }

    /// Puts the slot called `name` back to the shader's default. The result
    /// says whether the material has a slot of that name.
    pub fn reset(&mut self, name: &str) -> (found: bool)
        ensures
            found == old(self)@.declares(name@),
            final(self)@ == old(self)@.reset(name@),
    {
        proof {
            use_type_invariant(&*self);
        }
        match self.find(name) {
            Some(index) => {
                let mut slots: Vec<Slot> = Vec::new();
                core::mem::swap(&mut self.slots, &mut slots);
                slots[index].value = None;
                proof {
                    let before = old(self)@;
                    let after = before.reset(name@);
                    assert(Seq::new(slots@.len(), |i: int| slots@[i]@) =~= after.slots);
                    assert forall|i: int, j: int| 0 <= i < j < after.slots.len() implies
                        after.slots[i].name != after.slots[j].name by {
                        assert(after.slots[i].name == before.slots[i].name);
                        assert(after.slots[j].name == before.slots[j].name);
                    }
                    assert forall|i: int| 0 <= i < after.slots.len() implies (
                    #[trigger] after.slots[i].value matches Some(held) ==> held.spec_kind()
                        == after.slots[i].kind) by {
                        assert(after.slots[i].kind == before.slots[i].kind);
                        if before.slots[i].name != name@ {
                            assert(after.slots[i].value == before.slots[i].value);
                        }
                    }
                    assert(after.well_formed());
                }
                core::mem::swap(&mut self.slots, &mut slots);
                proof {
                    assert(self@.slots =~= old(self)@.reset(name@).slots);
                }
                true
            },
            None => {
                proof {
                    assert(self@.slots =~= old(self)@.reset(name@).slots);
                }
                false
            },
        }
    }

    /// Sets the colour input called `name`.
    pub fn set_color(&mut self, name: &str, color: Color) -> (accepted: bool)
        ensures
            accepted == old(self)@.accepts(name@, PropertyKind::Color),
            final(self)@ == old(self)@.set(name@, MaterialProperty::Color(color)),
    {
        self.set_property(name, MaterialProperty::Color(color))
    }

    /// Sets the scalar input called `name`.
    pub fn set_f32(&mut self, name: &str, value: Scalar) -> (accepted: bool)
        ensures
            accepted == old(self)@.accepts(name@, PropertyKind::F32),
            final(self)@ == old(self)@.set(name@, MaterialProperty::F32(value)),
    {
        self.set_property(name, MaterialProperty::F32(value))
    }

    /// Sets the texture input called `name`. The texture need not be known
    /// to any renderer: what an unknown one is bound to is decided when a
    /// frame is compiled.
    pub fn set_texture(&mut self, name: &str, texture: GpuTexture) -> (accepted: bool)
        ensures
            accepted == old(self)@.accepts(name@, PropertyKind::Texture),
            final(self)@ == old(self)@.set(name@, MaterialProperty::Texture(texture)),
    {
        self.set_property(name, MaterialProperty::Texture(texture))
    }
}

} // verus!
