//! The version metadata that the Windows resource script of the launcher's
//! executables carries.

use vstd::prelude::*;
use vstd::string::StringExecFns;

verus! {

/// One string property of a Windows version resource.
pub struct ResourceProperty {
    pub key: String,
    pub value: String,
}

/// The product version set in the fixed part of the version resource: 1.0.0.0.
pub const PRODUCT_VERSION_INFO: u64 = 0x0001000000000000;

/// The string properties of the version resource, as (key, value) pairs in order.
pub open spec fn resource_property_table(
    internal_name: Seq<char>,
    display_name: Seq<char>,
    version: Seq<char>,
    license: Seq<char>,
    repository: Seq<char>,
) -> Seq<(Seq<char>, Seq<char>)> {
    seq![
        ("Comments"@, "Maxima Game Launcher - "@ + repository),
        ("CompanyName"@, "Armchair Developers"@),
        ("FileDescription"@, display_name),
        ("FileVersion"@, version),
        ("InternalName"@, internal_name),
        ("LegalTrademarks"@, license),
        ("ProductName"@, display_name),
        ("ProductVersion"@, version),
    ]
}

fn property(key: &str, value: String) -> (p: ResourceProperty)
    ensures
        p.key@ == key@,
        p.value@ == value@,
{
    ResourceProperty { key: key.to_owned(), value }
}

/// The string properties of an executable's version resource, or `None` when
/// the build is not for Windows, where no resource is made.
pub fn windows_resource_properties(
    is_windows: bool,
    internal_name: &str,
    display_name: &str,
    version: &str,
    license: &str,
    repository: &str,
) -> (props: Option<Vec<ResourceProperty>>)
    ensures
        props is None <==> !is_windows,
        props matches Some(p) ==> {
            let table = resource_property_table(
                internal_name@,
                display_name@,
                version@,
                license@,
                repository@,
            );
            &&& p@.len() == table.len()
            &&& forall|i: int|
                0 <= i < p@.len() ==> (#[trigger] p@[i]).key@ == table[i].0 && p@[i].value@
                    == table[i].1
        },
{
    if !is_windows {
        return None;
    }
    let mut comments: String = "Maxima Game Launcher - ".to_owned();
    comments.append(repository);
    let mut props: Vec<ResourceProperty> = Vec::new();
    props.push(property("Comments", comments));
    props.push(property("CompanyName", "Armchair Developers".to_owned()));
    props.push(property("FileDescription", display_name.to_owned()));
    props.push(property("FileVersion", version.to_owned()));
    props.push(property("InternalName", internal_name.to_owned()));
    props.push(property("LegalTrademarks", license.to_owned()));
    props.push(property("ProductName", display_name.to_owned()));
    props.push(property("ProductVersion", version.to_owned()));
    let ghost table = resource_property_table(
        internal_name@,
        display_name@,
        version@,
        license@,
        repository@,
    );
    assert forall|i: int| 0 <= i < props@.len() implies (#[trigger] props@[i]).key@ == table[i].0
        && props@[i].value@ == table[i].1 by {
        if i == 0 {
        } else if i == 1 {
        } else if i == 2 {
        } else if i == 3 {
        } else if i == 4 {
        } else if i == 5 {
        } else if i == 6 {
        } else {
        }
    }
    Some(props)
}

} // verus!
