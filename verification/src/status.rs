//! The stages of a sale.

use vstd::prelude::*;

verus! {

/// The stage a sale is in.
#[derive(Clone, Copy, Debug, PartialEq, Eq, Structural)]
pub enum MintingStatus {
    /// Before the first sale window opens.
    Closed,
    /// The first allowlisted window.
    Prepresale,
    /// The second allowlisted window.
    Presale,
    /// Open to everyone.
    Public,
    /// After the public window, or once every token is sold.
    End,
}

impl MintingStatus {
    /// The position of a stage in the order of a sale, from 0 for `Closed`
    /// to 4 for `End`.
    pub open spec fn index(self) -> u8 {
        match self {
            MintingStatus::Closed => 0,
            MintingStatus::Prepresale => 1,
            MintingStatus::Presale => 2,
            MintingStatus::Public => 3,
            MintingStatus::End => 4,
        }
    }

    /// The stage at a position, if the position names one.
    pub open spec fn of_index(index: u8) -> Option<MintingStatus> {
        if index == 0 {
            Some(MintingStatus::Closed)
        } else if index == 1 {
            Some(MintingStatus::Prepresale)
        } else if index == 2 {
            Some(MintingStatus::Presale)
        } else if index == 3 {
            Some(MintingStatus::Public)
        } else if index == 4 {
            Some(MintingStatus::End)
        } else {
            None
        }
    }

    /// The lower-case name of a stage.
    pub open spec fn label(self) -> Seq<char> {
        match self {
            MintingStatus::Closed => "closed"@,
            MintingStatus::Prepresale => "prepresale"@,
            MintingStatus::Presale => "presale"@,
            MintingStatus::Public => "public"@,
            MintingStatus::End => "end"@,
        }
    }

    /// Whether tokens are on sale in this stage.
    pub open spec fn is_selling(self) -> bool {
        self == MintingStatus::Prepresale || self == MintingStatus::Presale || self
            == MintingStatus::Public
    }

    pub fn to_index(&self) -> (index: u8)
        ensures
            index == self.index(),
    {
        match self {
            MintingStatus::Closed => 0,
            MintingStatus::Prepresale => 1,
            MintingStatus::Presale => 2,
            MintingStatus::Public => 3,
            MintingStatus::End => 4,
        }
    }

    pub fn from_index(index: u8) -> (status: Option<MintingStatus>)
        ensures
            status == MintingStatus::of_index(index),
    {
        match index {
            0 => Some(MintingStatus::Closed),
            1 => Some(MintingStatus::Prepresale),
            2 => Some(MintingStatus::Presale),
            3 => Some(MintingStatus::Public),
            4 => Some(MintingStatus::End),
            _ => None,
        }
    }

    pub fn name(&self) -> (name: String)
        ensures
            name@ == self.label(),
    {
        match self {
            MintingStatus::Closed => "closed".to_owned(),
            MintingStatus::Prepresale => "prepresale".to_owned(),
            MintingStatus::Presale => "presale".to_owned(),
            MintingStatus::Public => "public".to_owned(),
            MintingStatus::End => "end".to_owned(),
        }
    }

    /// Every stage is found again at its own position, and a position names
    /// a stage exactly when it is at most 4.
    pub proof fn lemma_index_round_trip(status: MintingStatus, index: u8)
        ensures
            MintingStatus::of_index(status.index()) == Some(status),
            MintingStatus::of_index(index) is Some <==> index <= 4,
            MintingStatus::of_index(index) is Some ==> MintingStatus::of_index(index).unwrap().index()
                == index,
    {
    }
}

} // verus!
