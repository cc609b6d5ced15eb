use vstd::prelude::*;

verus! {

/// The greeting for a name.
pub open spec fn greeting(name: Seq<char>) -> Seq<char> {
    "Hello, "@ + name + "! You've been greeted from Rust!"@
}

/// Greets `name`.
pub fn greet(name: &str) -> (r: String)
    ensures
        r@ == greeting(name@),
{
    String::from_str("Hello, ").concat(name).concat("! You've been greeted from Rust!")
}

/// What the shell tells about itself.
pub struct AppInfo {
    pub name: String,
    pub version: String,
    pub description: String,
}

/// The application's fixed description.
pub fn get_app_info() -> (r: AppInfo)
    ensures
        r.name@ == "Cetiprobe"@,
        r.version@ == "0.0.0"@,
        r.description@ == "A powerful network analysis and packet capture tool"@,
        r.name@.len() > 0,
        r.version@.len() > 0,
{
    proof {
        reveal_strlit("Cetiprobe");
        reveal_strlit("0.0.0");
    }
    AppInfo {
        name: String::from_str("Cetiprobe"),
        version: String::from_str("0.0.0"),
        description: String::from_str("A powerful network analysis and packet capture tool"),
    }
}

/// Exports the data; for now it only acknowledges.
pub fn export_data() -> (r: Result<String, String>)
    ensures
        r matches Ok(m) && m@ == "Data exported successfully"@,
{
    Ok(String::from_str("Data exported successfully"))
}

/// Imports the data; for now it only acknowledges.
pub fn import_data() -> (r: Result<String, String>)
    ensures
        r matches Ok(m) && m@ == "Data imported successfully"@,
{
    Ok(String::from_str("Data imported successfully"))
}

/// The greeting holds the name exactly once, between the fixed opening and
/// closing words.
pub proof fn lemma_greeting_shape(name: Seq<char>)
    ensures
        greeting(name).subrange(0, 7) == "Hello, "@,
        greeting(name).subrange(7, 7 + name.len() as int) == name,
        greeting(name).subrange(7 + name.len() as int, greeting(name).len() as int)
            == "! You've been greeted from Rust!"@,
{
    reveal_strlit("Hello, ");
    let g = greeting(name);
    assert(g.subrange(0, 7) =~= "Hello, "@);
    assert(g.subrange(7, 7 + name.len() as int) =~= name);
    assert(g.subrange(7 + name.len() as int, g.len() as int) =~= "! You've been greeted from Rust!"@);
}

} // verus!
