//! The operations of the service and which of them ask for a session.

use vstd::prelude::*;

verus! {

/// The HTTP method of an operation.
#[derive(Clone, Copy, Debug, PartialEq, Eq, Structural)]
pub enum Method {
    Get,
    Post,
    Delete,
}

/// The operations the service offers.
#[derive(Clone, Copy, Debug, PartialEq, Eq, Structural)]
pub enum Operation {
    CreatePost,
    DeletePost,
    ReactToPost,
    Logout,
    LoginStatus,
    Comment,
    GetProfile,
    GetAllUsers,
    GetAllPosts,
    Login,
    Register,
    GetComments,
    GetPost,
}

impl Operation {
    /// Whether the operation is open to admitted requests only.  What
    /// writes, or speaks for a user, asks for a session; reading, logging in
    /// and registering do not.
    pub open spec fn spec_is_protected(self) -> bool {
        match self {
            Operation::CreatePost => true,
            Operation::DeletePost => true,
            Operation::ReactToPost => true,
            Operation::Logout => true,
            Operation::LoginStatus => true,
            Operation::Comment => true,
            _ => false,
        }
    }

    /// The HTTP method of the operation.
    pub open spec fn spec_method(self) -> Method {
        match self {
            Operation::DeletePost => Method::Delete,
            Operation::GetProfile => Method::Get,
            Operation::GetAllUsers => Method::Get,
            Operation::GetAllPosts => Method::Get,
            Operation::GetComments => Method::Get,
            Operation::GetPost => Method::Get,
            _ => Method::Post,
        }
    }

    /// The path of the operation; a segment that begins with a colon stands
    /// for a value.
    pub open spec fn spec_path(self) -> Seq<char> {
        match self {
            Operation::CreatePost => "/posts"@,
            Operation::DeletePost => "/posts/:post_id"@,
            Operation::ReactToPost => "/posts/:post_id/react"@,
            Operation::Logout => "/auth/logout"@,
            Operation::LoginStatus => "/auth/status"@,
            Operation::Comment => "/posts/:post_id/comments"@,
            Operation::GetProfile => "/user/:username"@,
            Operation::GetAllUsers => "/users"@,
            Operation::GetAllPosts => "/posts"@,
            Operation::Login => "/auth/login"@,
            Operation::Register => "/auth/register"@,
            Operation::GetComments => "/posts/:post_id/comments"@,
            Operation::GetPost => "/posts/:post_id"@,
        }
    }

    /// Whether the operation is open to admitted requests only.
    pub fn is_protected(&self) -> (protected: bool)
        ensures
            protected == self.spec_is_protected(),
    {
        match self {
            Operation::CreatePost => true,
            Operation::DeletePost => true,
            Operation::ReactToPost => true,
            Operation::Logout => true,
            Operation::LoginStatus => true,
            Operation::Comment => true,
            _ => false,
        }
    }

    /// The HTTP method of the operation.
    pub fn method(&self) -> (method: Method)
        ensures
            method == self.spec_method(),
    {
        match self {
            Operation::DeletePost => Method::Delete,
            Operation::GetProfile => Method::Get,
            Operation::GetAllUsers => Method::Get,
            Operation::GetAllPosts => Method::Get,
            Operation::GetComments => Method::Get,
            Operation::GetPost => Method::Get,
            _ => Method::Post,
        }
    }

    /// The path of the operation.
    pub fn path(&self) -> (path: &'static str)
        ensures
            path@ == self.spec_path(),
    {
        match self {
            Operation::CreatePost => "/posts",
            Operation::DeletePost => "/posts/:post_id",
            Operation::ReactToPost => "/posts/:post_id/react",
            Operation::Logout => "/auth/logout",
            Operation::LoginStatus => "/auth/status",
            Operation::Comment => "/posts/:post_id/comments",
            Operation::GetProfile => "/user/:username",
            Operation::GetAllUsers => "/users",
            Operation::GetAllPosts => "/posts",
            Operation::Login => "/auth/login",
            Operation::Register => "/auth/register",
            Operation::GetComments => "/posts/:post_id/comments",
            Operation::GetPost => "/posts/:post_id",
        }
    }
}

/// Every operation, each once.
pub fn operations() -> (all: Vec<Operation>)
    ensures
        all@.no_duplicates(),
        forall|op: Operation| all@.contains(op),
{
    let all = vec![
        Operation::CreatePost,
        Operation::DeletePost,
        Operation::ReactToPost,
        Operation::Logout,
        Operation::LoginStatus,
        Operation::Comment,
        Operation::GetProfile,
        Operation::GetAllUsers,
        Operation::GetAllPosts,
        Operation::Login,
        Operation::Register,
        Operation::GetComments,
        Operation::GetPost,
    ];
    proof {
        assert forall|op: Operation| all@.contains(op) by {
            match op {
                Operation::CreatePost => assert(all@[0] == op),
                Operation::DeletePost => assert(all@[1] == op),
                Operation::ReactToPost => assert(all@[2] == op),
                Operation::Logout => assert(all@[3] == op),
                Operation::LoginStatus => assert(all@[4] == op),
                Operation::Comment => assert(all@[5] == op),
                Operation::GetProfile => assert(all@[6] == op),
                Operation::GetAllUsers => assert(all@[7] == op),
                Operation::GetAllPosts => assert(all@[8] == op),
                Operation::Login => assert(all@[9] == op),
                Operation::Register => assert(all@[10] == op),
                Operation::GetComments => assert(all@[11] == op),
                Operation::GetPost => assert(all@[12] == op),
            }
        }
    }
    all
}

} // verus!
