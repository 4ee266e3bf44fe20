use vstd::prelude::*;

verus! {

/// The two stages of the shader program.
#[derive(Clone, Copy, Debug, PartialEq, Eq, Structural)]
pub enum ShaderStage {
    Vertex,
    Fragment,
}

/// A device resource that setup creates.
#[derive(Clone, Copy, Debug, PartialEq, Eq, Structural)]
pub enum Resource {
    Shader(ShaderStage),
    Program,
    Buffer,
    VertexArray,
}

/// Why the pipeline could not be set up. Every setup failure is fatal: no
/// partial scene is left running.
#[derive(Debug, PartialEq, Eq)]
pub enum SetupError {
    /// The device refused to create a resource.
    ResourceCreation(Resource),
    /// A shader stage was rejected; `log` is the device's diagnostic text.
    Compile { stage: ShaderStage, log: String },
    /// The two stages could not be linked; `log` is the device's text.
    Link { log: String },
    /// The program has no attribute or uniform of this name.
    Lookup { name: String },
}

/// The diagnostic text that the device gave, or the empty text where it
/// gave none.
pub open spec fn log_text(log: Option<String>) -> Seq<char> {
    match log {
        Some(s) => s@,
        None => Seq::empty(),
    }
}

fn log_string(log: Option<String>) -> (r: String)
    ensures
        r@ == log_text(log),
{
    match log {
        Some(s) => s,
        None => String::new(),
    }
}

/// Fails when the device refused to create `resource`.
pub fn require_created(resource: Resource, created: bool) -> (r: Result<(), SetupError>)
    ensures
        created ==> r is Ok,
        !created ==> r == Err::<(), SetupError>(SetupError::ResourceCreation(resource)),
{
    if created {
        Ok(())
    } else {
        Err(SetupError::ResourceCreation(resource))
    }
}

/// Judges the compilation of a shader stage from the status the device
/// reported. The diagnostic log is always surfaced: it is the success
/// value, or it is carried by the error.
pub fn compile_outcome(stage: ShaderStage, compiled: bool, log: Option<String>) -> (r: Result<
    String,
    SetupError,
>)
    ensures
        r is Ok <==> compiled,
        r matches Ok(text) ==> text@ == log_text(log),
        !compiled ==> (r matches Err(SetupError::Compile { stage: s, log: text }) && s == stage
            && text@ == log_text(log)),
{
    let text = log_string(log);
    if compiled {
        Ok(text)
    } else {
        Err(SetupError::Compile { stage, log: text })
    }
}

/// Judges the link of the program from the status the device reported.
pub fn link_outcome(linked: bool, log: Option<String>) -> (r: Result<String, SetupError>)
    ensures
        r is Ok <==> linked,
        r matches Ok(text) ==> text@ == log_text(log),
        !linked ==> (r matches Err(SetupError::Link { log: text }) && text@ == log_text(log)),
{
    let text = log_string(log);
    if linked {
        Ok(text)
    } else {
        Err(SetupError::Link { log: text })
    }
}

/// The index of the attribute `name`, from the location the device
/// reported; a negative location means the program has no such attribute.
pub fn attribute_index(name: &str, location: i32) -> (r: Result<u32, SetupError>)
    ensures
        location >= 0 ==> r == Ok::<u32, SetupError>(location as u32),
        location < 0 ==> (r matches Err(SetupError::Lookup { name: n }) && n@ == name@),
{
    if location >= 0 {
        Ok(location as u32)
    } else {
        Err(SetupError::Lookup { name: name.to_owned() })
    }
}

/// Fails when the program has no uniform `name`.
pub fn require_uniform(name: &str, found: bool) -> (r: Result<(), SetupError>)
    ensures
        found ==> r is Ok,
        !found ==> (r matches Err(SetupError::Lookup { name: n }) && n@ == name@),
{
    if found {
        Ok(())
    } else {
        Err(SetupError::Lookup { name: name.to_owned() })
    }
}

} // verus!
