use runner::flat_map_err::FlatMapErr;

#[derive(Debug, PartialEq, Eq)]
enum Error {
    IgnorableError,
    GraveError,
}

fn ignore(e: Error) -> Result<(), Error> {
    match e {
        Error::IgnorableError => Ok(()),
        Error::GraveError => Err(e),
    }
}

#[test]
fn flat_map_err() {
    [
        (Ok(()), Ok(())),
        (Err(Error::IgnorableError), Ok(())),
        (Err(Error::GraveError), Err(Error::GraveError)),
    ]
    .into_iter()
    .for_each(|(input, expected): (Result<(), Error>, Result<(), Error>)| {
        let actual = input.flat_map_err(ignore);
        assert_eq!(actual, expected);
    });
}
