//! The in-memory representation of the parts of a Stanford PLY file: its header (format,
//! elements and their properties) and its body, with lookups of elements and properties by name.

use vstd::prelude::*;

verus! {

/// Describes the recognized formats of a PLY file.
#[derive(Debug, Clone, Copy, PartialEq, Eq, Structural)]
pub enum FormatType {
    /// Specifies that the ply file in question uses an ascii encoding.
    Ascii,
    /// Specifies that the ply file in question uses a big-endian binary encoding.
    BinaryBigEndian,
    /// Specifies that the ply file in question uses a little-endian binary encoding.
    BinaryLittleEndian,
}

/// Describes the recognized data types for property values.
#[derive(Debug, Clone, Copy, PartialEq, Eq, Structural)]
pub enum DataType {
    Int8,
    Uint8,
    Int16,
    Uint16,
    Int32,
    Uint32,
    Float32,
    Float64,
}

/// Describes the recognized count data types for vector properties.
#[derive(Debug, Clone, Copy, PartialEq, Eq, Structural)]
pub enum CountType {
    Uint8,
    Uint16,
    Uint32,
}

/// Describes the PLY format and version.
#[derive(Debug, Clone, PartialEq, Eq)]
pub struct Format {
    /// Holds the file encoding format.
    pub format: FormatType,
    /// Holds the ply file format version. Only 1.0 is known and supported.
    pub version: Vec<usize>,
}

/// Describes a PLY property.
#[derive(Debug, Clone, PartialEq, Eq)]
pub struct Property {
    /// Holds the name of the property. Must be unique per `Element` to be of any use.
    pub name: String,
    /// A property may be either scalar or vector. In the latter case, a count precedes the
    /// actual property data; this field specifies the data type of that count value.
    pub count_data_type: Option<CountType>,
    /// Specifies the data type of the property value(s).
    pub data_type: DataType,
}

/// Describes a PLY element.
#[derive(Debug, Clone, PartialEq, Eq)]
pub struct Element {
    /// Holds the name of the element. Must be unique per ply file to be of any use.
    pub name: String,
    /// Holds the number of occurrences of this element within the body of the ply file.
    pub count: usize,
    /// Holds the properties of this element.
    pub properties: Vec<Property>,
}

/// Describes the PLY header.
#[derive(Debug, Clone, PartialEq, Eq)]
pub struct Header {
    /// Denotes the file format.
    pub format: Format,
    /// Specifies all elements (and their properties) that will appear in this file.
    pub elements: Vec<Element>,
}

/// Some name occurs at two different positions of `names`.
pub open spec fn has_repeated_name(names: Seq<Seq<char>>) -> bool {
    exists|a: int, b: int| 0 <= a < b < names.len() && #[trigger] names[a] == #[trigger] names[b]
}

/// `name` is one of `names`.
pub open spec fn is_one_of(name: Seq<char>, names: Seq<&str>) -> bool {
    exists|k: int| 0 <= k < names.len() && #[trigger] names[k]@ == name
}

/// Tells whether `name` equals one of `names`.
fn name_is_one_of(name: &String, names: &[&str]) -> (r: bool)
    ensures
        r == is_one_of(name@, names@),
{
    let mut k: usize = 0;
    while k < names.len()
        invariant
            k <= names.len(),
            forall|a: int| 0 <= a < k ==> names@[a]@ != name@,
        decreases names.len() - k,
    {
        let candidate: String = names[k].to_owned();
        if *name == candidate {
            return true;
        }
        k = k + 1;
    }
    proof {
        assert forall|a: int| 0 <= a < names@.len() implies #[trigger] names@[a]@ != name@ by {}
    }
    false
}

/// The character sequences of `names`.
pub open spec fn views_of(names: Seq<String>) -> Seq<Seq<char>> {
    names.map_values(|n: String| n@)
}

/// Tells whether some string occurs twice in `names`.
fn has_repeat(names: &Vec<String>) -> (r: bool)
    ensures
        r == has_repeated_name(views_of(names@)),
{
    let ghost v = views_of(names@);
    let mut b: usize = 0;
    while b < names.len()
        invariant
            b <= names.len(),
            v == views_of(names@),
            forall|a: int, c: int| 0 <= a < c < b ==> #[trigger] v[a] != #[trigger] v[c],
        decreases names.len() - b,
    {
        let mut a: usize = 0;
        while a < b
            invariant
                a <= b < names.len(),
                v == views_of(names@),
                forall|c: int| 0 <= c < a ==> #[trigger] v[c] != v[b as int],
            decreases b - a,
        {
            if names[a] == names[b] {
                proof {
                    assert(v[a as int] == v[b as int]);
                }
                return true;
            }
            a = a + 1;
        }
        b = b + 1;
    }
    false
}

impl Property {
    /// The property is a scalar one (it has no count) and is named by one of `names`.
    pub open spec fn is_scalar_named(&self, names: Seq<&str>) -> bool {
        self.count_data_type.is_none() && is_one_of(self.name@, names)
    }

    /// The property is a vector one (it has a count) and is named by one of `names`.
    pub open spec fn is_vector_named(&self, names: Seq<&str>) -> bool {
        self.count_data_type.is_some() && is_one_of(self.name@, names)
    }
}

/// `r` is the last position of `items` whose item satisfies `pred`, with that item, or `None`
/// where no item does.
pub open spec fn is_last_match<T>(items: Seq<T>, pred: spec_fn(T) -> bool, r: Option<(usize, &T)>) -> bool {
    match r {
        Some((i, x)) => {
            &&& i < items.len()
            &&& *x == items[i as int]
            &&& pred(items[i as int])
            &&& forall|j: int| i < j < items.len() ==> !pred(#[trigger] items[j])
        },
        None => forall|j: int| 0 <= j < items.len() ==> !pred(#[trigger] items[j]),
    }
}

impl Element {
    /// The names of the properties, in order.
    pub open spec fn property_names(&self) -> Seq<Seq<char>> {
        self.properties@.map_values(|p: Property| p.name@)
    }

    /// Returns `true` if a property name occurs more than once.
    pub fn has_duplicate_properties(&self) -> (r: bool)
        ensures
            r == has_repeated_name(self.property_names()),
    {
        let mut names: Vec<String> = Vec::new();
        let mut k: usize = 0;
        while k < self.properties.len()
            invariant
                k <= self.properties.len(),
                names@.len() == k,
                forall|a: int| 0 <= a < k ==> #[trigger] names@[a]@ == self.properties@[a].name@,
            decreases self.properties.len() - k,
        {
            names.push(self.properties[k].name.clone());
            k = k + 1;
        }
        assert(views_of(names@) =~= self.property_names());
        has_repeat(&names)
    }

    /// Returns the last scalar property that matches any of the specified names, with its
    /// index, which can be used to obtain the corresponding data from the body of the ply file.
    pub fn scalar_property(&self, names: &[&str]) -> (r: Option<(usize, &Property)>)
        ensures
            is_last_match(self.properties@, |p: Property| p.is_scalar_named(names@), r),
    {
        let mut i: usize = self.properties.len();
        while i > 0
            invariant
                i <= self.properties.len(),
                forall|j: int| i <= j < self.properties@.len() ==> !(#[trigger] self.properties@[j]).is_scalar_named(names@),
            decreases i,
        {
            i = i - 1;
            let p = &self.properties[i];
            if p.count_data_type.is_none() && name_is_one_of(&p.name, names) {
                return Some((i, p));
            }
        }
        None
    }

    /// Returns the last vector property that matches any of the specified names, with its
    /// index, which can be used to obtain the corresponding data from the body of the ply file.
    pub fn vector_property(&self, names: &[&str]) -> (r: Option<(usize, &Property)>)
        ensures
            is_last_match(self.properties@, |p: Property| p.is_vector_named(names@), r),
    {
        let mut i: usize = self.properties.len();
        while i > 0
            invariant
                i <= self.properties.len(),
                forall|j: int| i <= j < self.properties@.len() ==> !(#[trigger] self.properties@[j]).is_vector_named(names@),
            decreases i,
        {
            i = i - 1;
            let p = &self.properties[i];
            if p.count_data_type.is_some() && name_is_one_of(&p.name, names) {
                return Some((i, p));
            }
        }
        None
    }
}

impl Header {
    /// The names of the elements, in order.
    pub open spec fn element_names(&self) -> Seq<Seq<char>> {
        self.elements@.map_values(|e: Element| e.name@)
    }

    /// Returns `true` if an element name occurs more than once.
    pub fn has_duplicate_elements(&self) -> (r: bool)
        ensures
            r == has_repeated_name(self.element_names()),
    {
        let mut names: Vec<String> = Vec::new();
        let mut k: usize = 0;
        while k < self.elements.len()
            invariant
                k <= self.elements.len(),
                names@.len() == k,
                forall|a: int| 0 <= a < k ==> #[trigger] names@[a]@ == self.elements@[a].name@,
            decreases self.elements.len() - k,
        {
            names.push(self.elements[k].name.clone());
            k = k + 1;
        }
        assert(views_of(names@) =~= self.element_names());
        has_repeat(&names)
    }

    /// Returns the last element that matches any of the specified names, with its index, which
    /// can be used to obtain the corresponding data from the body of the ply file.
    pub fn element(&self, names: &[&str]) -> (r: Option<(usize, &Element)>)
        ensures
            is_last_match(self.elements@, |e: Element| is_one_of(e.name@, names@), r),
    {
        let mut i: usize = self.elements.len();
        while i > 0
            invariant
                i <= self.elements.len(),
                forall|j: int| i <= j < self.elements@.len() ==> !is_one_of((#[trigger] self.elements@[j]).name@, names@),
            decreases i,
        {
            i = i - 1;
            let e = &self.elements[i];
            if name_is_one_of(&e.name, names) {
                return Some((i, e));
            }
        }
        None
    }
}

/// Holds data of a single element: one value per property, in the order of the properties.
/// The type of a property value is left to the user of the body.
#[derive(Debug, Clone, PartialEq)]
pub struct ElementData<P> {
    /// Holds all property data for that element.
    pub properties: Vec<P>,
}

/// Holds data of all occurrences of each element specified in the header, i.e. all data.
#[derive(Debug, Clone, PartialEq)]
pub struct Body<P> {
    /// Holds all element (and property) data for that particular ply file.
    pub elements: Vec<Vec<ElementData<P>>>,
}

/// `t` is a value that `mapper` may return when called with a slice holding `props`.
pub open spec fn maps_to<P, T, F: Fn(&[P]) -> T>(mapper: F, props: Seq<P>, t: T) -> bool {
    exists|sl: &[P]| sl@ == props && #[trigger] call_ensures(mapper, (sl,), t)
}

impl<P> Body<P> {
    /// `mapper` may be called with the property data of every occurrence of element `element`.
    pub open spec fn mapper_accepts<T, F: Fn(&[P]) -> T>(&self, element: int, mapper: F) -> bool {
        forall|k: int, sl: &[P]|
            #![trigger self.elements@[element]@[k], call_requires(mapper, (sl,))]
            0 <= k < self.elements@[element]@.len() && sl@ == self.elements@[element]@[k].properties@
                ==> call_requires(mapper, (sl,))
    }

    /// Given an element index and a mapper closure, calls the mapper for each instance of the
    /// supplied element, in order. This allows to map the ply data to other representations.
    pub fn generate<T, F: Fn(&[P]) -> T>(&self, element: usize, mapper: F) -> (r: Vec<T>)
        requires
            element < self.elements@.len(),
            self.mapper_accepts(element as int, mapper),
        ensures
            r@.len() == self.elements@[element as int]@.len(),
            forall|k: int|
                0 <= k < r@.len() ==> #[trigger] maps_to(mapper, self.elements@[element as int]@[k].properties@, r@[k]),
    {
        let occurrences = &self.elements[element];
        let mut r: Vec<T> = Vec::new();
        let mut k: usize = 0;
        while k < occurrences.len()
            invariant
                element < self.elements@.len(),
                occurrences@ == self.elements@[element as int]@,
                self.mapper_accepts(element as int, mapper),
                k <= occurrences@.len(),
                r@.len() == k,
                forall|a: int| 0 <= a < k ==> #[trigger] maps_to(mapper, occurrences@[a].properties@, r@[a]),
            decreases occurrences@.len() - k,
        {
            let sl = occurrences[k].properties.as_slice();
            let t = mapper(sl);
            let ghost before = r@;
            r.push(t);
            proof {
                assert(maps_to(mapper, occurrences@[k as int].properties@, r@[k as int]));
                assert forall|a: int| 0 <= a < k implies #[trigger] maps_to(mapper, occurrences@[a].properties@, r@[a]) by {
                    assert(r@[a] == before[a]);
                }
            }
            k = k + 1;
        }
        r
    }
}

/// Describes an in-memory representation of the PLY file format.
#[derive(Debug, Clone, PartialEq)]
pub struct Ply<P> {
    /// Specifies the ply header.
    pub header: Header,
    /// Specifies the ply data body. Cannot be parsed without the header.
    pub body: Body<P>,
}

impl<P> Ply<P> {
    /// Returns the last element that matches any of the specified names, with its index, which
    /// can be used to obtain the corresponding data from the body of the ply file.
    pub fn element(&self, names: &[&str]) -> (r: Option<(usize, &Element)>)
        ensures
            is_last_match(self.header.elements@, |e: Element| is_one_of(e.name@, names@), r),
    {
        self.header.element(names)
    }

    /// Given an element index and a mapper closure, calls the mapper for each instance of the
    /// supplied element, in order. This allows to map the ply data to other representations.
    pub fn generate<T, F: Fn(&[P]) -> T>(&self, element: usize, mapper: F) -> (r: Vec<T>)
        requires
            element < self.body.elements@.len(),
            self.body.mapper_accepts(element as int, mapper),
        ensures
            r@.len() == self.body.elements@[element as int]@.len(),
            forall|k: int|
                0 <= k < r@.len() ==> #[trigger] maps_to(mapper, self.body.elements@[element as int]@[k].properties@, r@[k]),
    {
        self.body.generate(element, mapper)
    }
}

} // verus!
